use glcore::{
    uniform_excepted, ClearMask, Error, GLContext, GLObject, GLObjectRegistry, GlCall, Mesh,
    Primitive, Program, Uniform, UniformType, Usage, VOBuilder,
};

fn bits(values: &[f32]) -> Vec<u32> {
    values.iter().map(|v| v.to_bits()).collect()
}

#[test]
fn builder_rejects_mismatched_attribute_counts() {
    // position: 4 values of component size 2 -> 2 vertices
    let position = bits(&[1.0, 2.0, 3.0, 4.0]);
    // color: 3 values of component size 1 -> 3 vertices
    let color = bits(&[1.0, 2.0, 3.0]);

    let builder = VOBuilder::new(Primitive::Triangles, Usage::StaticDraw)
        .attribute("position", 2, &position)
        .unwrap();
    match builder.attribute("color", 1, &color) {
        Err(Error::AttributeCountMismatch { attribute }) => assert_eq!(attribute, "color"),
        other => panic!("expected a count mismatch, got {:?}", other.map(|_| ())),
    }
}

#[test]
fn builder_rejects_indivisible_component_size() {
    let data = bits(&[1.0, 2.0, 3.0]);
    match VOBuilder::new(Primitive::Triangles, Usage::StaticDraw).attribute("position", 2, &data) {
        Err(Error::ComponentSizeMismatch { num_values, component_size }) => {
            assert_eq!(num_values, 3);
            assert_eq!(component_size, 2);
        }
        other => panic!("expected a component-size mismatch, got {:?}", other.map(|_| ())),
    }
}

#[test]
fn builder_rejects_empty_attribute_data() {
    let empty: Vec<u32> = Vec::new();
    assert!(matches!(
        VOBuilder::new(Primitive::Triangles, Usage::StaticDraw).attribute("position", 1, &empty),
        Err(Error::InvalidVertexObject(_))
    ));
}

#[test]
fn builder_rejects_index_past_the_last_vertex() {
    // 4 vertices, so 3 is the largest valid index
    let data = bits(&[0.0, 1.0, 2.0, 3.0]);
    let builder = VOBuilder::new(Primitive::Triangles, Usage::StaticDraw)
        .attribute("position", 1, &data)
        .unwrap();
    match builder.indexes(&[0, 1, 5]) {
        Err(Error::InvalidIndex { index, num_vertices }) => {
            assert_eq!(index, 5);
            assert_eq!(num_vertices, 3);
        }
        other => panic!("expected an index error, got {:?}", other.map(|_| ())),
    }
}

#[test]
fn builder_accepts_indexes_inside_the_vertex_range() {
    let data = bits(&[0.0, 1.0, 2.0, 3.0]);
    let builder = VOBuilder::new(Primitive::Triangles, Usage::StaticDraw)
        .attribute("position", 1, &data)
        .unwrap()
        .indexes(&[0, 1, 2, 3, 0])
        .unwrap();
    assert!(builder.has_indexes());
}

#[test]
fn builder_interleaves_attributes_vertex_by_vertex() {
    let position = bits(&[10.0, 11.0, 20.0, 21.0]); // 2 vertices x 2 components
    let color = bits(&[1.0, 2.0, 3.0, 4.0, 5.0, 6.0]); // 2 vertices x 3 components

    let builder = VOBuilder::new(Primitive::Triangles, Usage::StaticDraw)
        .attribute("position", 2, &position)
        .unwrap()
        .attribute("color", 3, &color)
        .unwrap();

    let expected = bits(&[10.0, 11.0, 1.0, 2.0, 3.0, 20.0, 21.0, 4.0, 5.0, 6.0]);
    assert_eq!(builder.interleaved_buffer(), expected);

    // stride: (2 + 3) components x 4 bytes; offsets at 0 and 8 bytes
    assert_eq!(builder.stride(), 20);
    assert_eq!(builder.attribute_offsets(), vec![0, 8]);
}

#[test]
fn builder_finishes_into_a_vertex_object() {
    let data = bits(&[0.0, 1.0, 2.0]);
    let builder = VOBuilder::new(Primitive::LineLoop, Usage::StreamDraw)
        .attribute("position", 1, &data)
        .unwrap()
        .indexes(&[2, 1, 0])
        .unwrap();
    let vo = builder.into_vertex_object(40, 41, Some(42));
    assert_eq!(vo.num_vertices(), 3);
    assert_eq!(vo.primitive(), Primitive::LineLoop);
    assert!(vo.has_index_buffer());
}

#[test]
fn clear_records_colours_then_one_combined_clear() {
    let mut ctx = GLContext::new(GLObjectRegistry::new(4, 4), 4);
    let masks = [
        ClearMask::Color(
            0.1f32.to_bits(),
            0.2f32.to_bits(),
            0.3f32.to_bits(),
            1.0f32.to_bits(),
        ),
        ClearMask::DepthBuffer,
    ];
    ctx.clear(&masks);
    let calls = ctx.take_pending_calls();
    assert_eq!(
        calls,
        vec![
            GlCall::ClearColor {
                red: 0.1f32.to_bits(),
                green: 0.2f32.to_bits(),
                blue: 0.3f32.to_bits(),
                alpha: 1.0f32.to_bits(),
            },
            GlCall::Clear { color: true, depth: true },
        ]
    );

    // an empty mask list records nothing
    ctx.clear(&[]);
    assert!(ctx.take_pending_calls().is_empty());
}

#[test]
fn release_calls_delete_each_native_id_exactly_once() {
    let data = bits(&[0.0, 1.0, 2.0]);
    let indexed = VOBuilder::new(Primitive::Triangles, Usage::StaticDraw)
        .attribute("position", 1, &data)
        .unwrap()
        .indexes(&[0, 1, 2])
        .unwrap()
        .into_vertex_object(50, 51, Some(52));
    assert_eq!(
        GLObject::VertexObject(indexed).release_calls(),
        vec![
            GlCall::DeleteVertexArray(50),
            GlCall::DeleteBuffer(51),
            GlCall::DeleteBuffer(52),
        ]
    );

    let plain = VOBuilder::new(Primitive::Triangles, Usage::StaticDraw)
        .attribute("position", 1, &data)
        .unwrap()
        .into_vertex_object(60, 61, None);
    assert_eq!(
        GLObject::VertexObject(plain).release_calls(),
        vec![GlCall::DeleteVertexArray(60), GlCall::DeleteBuffer(61)]
    );

    let program = GLObject::Program(Program { gl_object_id: 70, shader_src_paths: Vec::new() });
    assert_eq!(program.release_calls(), vec![GlCall::DeleteProgram(70)]);
}

#[test]
fn mesh_updates_only_registered_uniforms() {
    let mut ctx = GLContext::new(GLObjectRegistry::new(4, 4), 4);
    let data = bits(&[0.0, 1.0, 2.0]);
    let vo_desc = ctx.register_object(GLObject::VertexObject(
        VOBuilder::new(Primitive::Triangles, Usage::StaticDraw)
            .attribute("position", 1, &data)
            .unwrap()
            .into_vertex_object(1, 2, None),
    ));
    let prog_desc = ctx.register_object(GLObject::Program(Program {
        gl_object_id: 3,
        shader_src_paths: Vec::new(),
    }));

    let uniforms = vec![Uniform::new_1i("u_mode", 0), Uniform::new_1f("u_t", 0.0f32.to_bits())];
    let mut mesh = Mesh::new(&ctx, vo_desc, prog_desc, uniforms).unwrap();

    mesh.set_uniform_on_cpu(Uniform::new_1i("u_mode", 7)).unwrap();
    assert_eq!(mesh.uniforms[0].kind, UniformType::I(7));
    assert_eq!(mesh.uniforms[1].kind, UniformType::F(0.0f32.to_bits()));

    match mesh.set_uniform_on_cpu(Uniform::new_1i("u_missing", 1)) {
        Err(Error::UniformDoesNotExist(name)) => assert_eq!(name, "u_missing"),
        other => panic!("expected a missing-uniform error, got {:?}", other.map(|_| ())),
    }
}

#[test]
fn mesh_new_rejects_handles_of_the_wrong_kind() {
    let mut ctx = GLContext::new(GLObjectRegistry::new(4, 4), 4);
    let prog_desc = ctx.register_object(GLObject::Program(Program {
        gl_object_id: 3,
        shader_src_paths: Vec::new(),
    }));
    // the program handle is not a vertex object
    assert!(matches!(
        Mesh::new(&ctx, prog_desc, prog_desc, Vec::new()),
        Err(Error::UnexpectedObjectDescriptorKind)
    ));
}

#[test]
fn mesh_deactivate_detaches_only_its_own_resources() {
    let mut ctx = GLContext::new(GLObjectRegistry::new(4, 4), 4);
    let data = bits(&[0.0, 1.0, 2.0]);
    let vo_desc = ctx.register_object(GLObject::VertexObject(
        VOBuilder::new(Primitive::Triangles, Usage::StaticDraw)
            .attribute("position", 1, &data)
            .unwrap()
            .into_vertex_object(1, 2, None),
    ));
    let prog_desc = ctx.register_object(GLObject::Program(Program {
        gl_object_id: 3,
        shader_src_paths: Vec::new(),
    }));
    let mesh = Mesh::new(&ctx, vo_desc, prog_desc, Vec::new()).unwrap();

    ctx.try_use_program(prog_desc).unwrap();
    ctx.try_bind_vertex_object(vo_desc).unwrap();
    ctx.take_pending_calls();

    mesh.deactivate(&mut ctx);
    assert!(ctx.try_get_active_program().is_err());
    assert_eq!(ctx.get_current_bound_vertex_object(), None);
    let calls = ctx.take_pending_calls();
    assert_eq!(calls, vec![GlCall::UseProgram(0), GlCall::BindVertexArray(0)]);

    // deactivating again changes nothing: nothing of the mesh is active
    mesh.deactivate(&mut ctx);
    assert!(ctx.take_pending_calls().is_empty());
}

#[test]
fn uniform_constructors_record_name_kind_and_transpose() {
    let u = Uniform::new_2f("u_uv", [0.5f32.to_bits(), 0.25f32.to_bits()]);
    assert_eq!(u.name, "u_uv");
    assert_eq!(u.kind, UniformType::F2([0.5f32.to_bits(), 0.25f32.to_bits()]));
    assert!(!u.transpose);

    let m = Uniform::new_mat3fv("u_model", [1.0f32.to_bits(); 9], true);
    assert!(m.transpose);
    assert_eq!(m.kind, UniformType::FMat3([1.0f32.to_bits(); 9]));

    let d = Uniform::new_1d("u_time", 2.5f64.to_bits());
    assert_eq!(d.kind, UniformType::D(2.5f64.to_bits()));
}

#[test]
fn error_boxed_wraps_the_description() {
    let e = Error::boxed(String::from("file not found"));
    assert_eq!(e, Error::Boxed(String::from("file not found")));
}


#[test]
fn mesh_update_replaces_only_the_first_of_equal_names() {
    let mut ctx = GLContext::new(GLObjectRegistry::new(4, 4), 4);
    let data: Vec<u32> = vec![1, 2, 3];
    let vo_desc = ctx.register_object(GLObject::VertexObject(
        VOBuilder::new(Primitive::Triangles, Usage::StaticDraw)
            .attribute("position", 1, &data)
            .unwrap()
            .into_vertex_object(1, 2, None),
    ));
    let prog_desc = ctx.register_object(GLObject::Program(Program {
        gl_object_id: 3,
        shader_src_paths: Vec::new(),
    }));
    let uniforms = vec![Uniform::new_1i("u_x", 1), Uniform::new_1i("u_x", 2)];
    let mut mesh = Mesh::new(&ctx, vo_desc, prog_desc, uniforms).unwrap();

    mesh.set_uniform_on_cpu(Uniform::new_1i("u_x", 9)).unwrap();
    assert_eq!(mesh.uniforms[0].kind, UniformType::I(9));
    assert_eq!(mesh.uniforms[1].kind, UniformType::I(2));

    // lookup by name finds the first entry
    let found = mesh.get_uniform(&String::from("u_x")).unwrap();
    assert_eq!(found.kind, UniformType::I(9));
    assert!(matches!(
        mesh.get_uniform(&String::from("u_y")),
        Err(Error::UniformDoesNotExist(_))
    ));
}

#[test]
fn uniform_exception_list_matches_by_name() {
    let exceptions = vec![String::from("u_proj"), String::from("u_view")];
    assert!(uniform_excepted(&String::from("u_view"), &exceptions));
    assert!(!uniform_excepted(&String::from("u_model"), &exceptions));
    assert!(!uniform_excepted(&String::from("u_model"), &[]));
}
