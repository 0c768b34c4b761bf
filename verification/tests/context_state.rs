use glcore::{
    attrib_location_result, uniform_location_result, CompileOutcome, Error, GLContext, GLObject,
    GLObjectRegistry, GlCall, LinkOutcome, Linker, Primitive, Shader, Uniform, UniformType, Usage,
    VOBuilder,
};

fn fresh_context() -> GLContext {
    GLContext::new(GLObjectRegistry::new(16, 16), 16)
}

fn register_program(ctx: &mut GLContext, native_id: u32) -> glcore::GLObjectDescriptor {
    let vertex = Shader::from_outcome(String::from("tri.vert"), "tri.vert", CompileOutcome::Compiled(1))
        .expect("vertex stage should compile");
    let fragment =
        Shader::from_outcome(String::from("tri.frag"), "tri.frag", CompileOutcome::Compiled(2))
            .expect("fragment stage should compile");
    let linker = Linker::new(native_id).attach_shader(vertex).attach_shader(fragment);
    linker.link(ctx, LinkOutcome::Linked).expect("link should succeed")
}

#[test]
fn scenario_triangle_renders_one_non_indexed_draw_call() {
    let mut ctx = fresh_context();
    let program = register_program(&mut ctx, 7);

    let data: Vec<u32> = [0.0f32, 0.0, 0.5, 1.0, 1.0, 0.0, 0.25, 0.25, 0.0]
        .iter()
        .map(|v| v.to_bits())
        .collect();
    let builder = VOBuilder::new(Primitive::Triangles, Usage::StaticDraw)
        .attribute("position", 3, &data)
        .expect("a 9-value attribute of component size 3 is valid");
    assert_eq!(builder.interleaved_buffer(), data);

    let vertex_object = builder.into_vertex_object(10, 11, None);
    let vo_desc = ctx.register_object(GLObject::VertexObject(vertex_object));

    ctx.try_use_program(program).expect("no other program is active");
    ctx.try_bind_vertex_object(vo_desc).expect("no other vertex object is bound");
    ctx.try_render().expect("program and vertex object are both active");

    let calls = ctx.take_pending_calls();
    assert_eq!(
        calls,
        vec![
            GlCall::UseProgram(7),
            GlCall::BindVertexArray(10),
            GlCall::DrawArrays { primitive: Primitive::Triangles, first: 0, count: 3 },
        ]
    );
    assert!(ctx.take_pending_calls().is_empty());
}

#[test]
fn use_program_strict_policy_keeps_first_program_active() {
    let mut ctx = fresh_context();
    let a = register_program(&mut ctx, 1);
    let b = register_program(&mut ctx, 2);

    ctx.try_use_program(a).unwrap();
    assert!(matches!(ctx.try_use_program(b), Err(Error::AnotherProgramInUse)));

    // the first program is still recorded as active
    assert_eq!(ctx.try_get_active_program().unwrap(), a);
}

#[test]
fn use_program_is_idempotent_without_second_native_call() {
    let mut ctx = fresh_context();
    let a = register_program(&mut ctx, 3);

    ctx.try_use_program(a).unwrap();
    ctx.try_use_program(a).unwrap();

    let calls = ctx.take_pending_calls();
    assert_eq!(calls, vec![GlCall::UseProgram(3)]);
}

#[test]
fn render_without_program_fails_whatever_the_binding_state() {
    let mut ctx = fresh_context();
    assert!(matches!(ctx.try_render(), Err(Error::NoActiveProgram)));

    // even with a vertex object bound, the missing program is reported
    let data: Vec<u32> = vec![1, 2, 3];
    let builder = VOBuilder::new(Primitive::Triangles, Usage::StaticDraw)
        .attribute("position", 1, &data)
        .unwrap();
    let vo_desc = ctx.register_object(GLObject::VertexObject(builder.into_vertex_object(4, 5, None)));
    ctx.try_bind_vertex_object(vo_desc).unwrap();
    assert!(matches!(ctx.try_render(), Err(Error::NoActiveProgram)));
}

#[test]
fn render_with_program_but_no_vertex_object_fails() {
    let mut ctx = fresh_context();
    let program = register_program(&mut ctx, 4);
    ctx.try_use_program(program).unwrap();
    assert!(matches!(ctx.try_render(), Err(Error::NoBoundVertexObject)));
}

#[test]
fn detach_returns_handle_and_records_native_detach() {
    let mut ctx = fresh_context();
    let program = register_program(&mut ctx, 5);
    ctx.try_use_program(program).unwrap();

    assert_eq!(ctx.detach_current_program(), Some(program));
    assert_eq!(ctx.detach_current_program(), None);

    let calls = ctx.take_pending_calls();
    assert_eq!(calls, vec![GlCall::UseProgram(5), GlCall::UseProgram(0)]);
}

#[test]
fn bind_vertex_object_strict_policy() {
    let mut ctx = fresh_context();
    let data: Vec<u32> = vec![1, 2, 3];
    let make = |ctx: &mut GLContext, vao: u32| {
        let b = VOBuilder::new(Primitive::Triangles, Usage::StaticDraw)
            .attribute("position", 1, &data)
            .unwrap();
        ctx.register_object(GLObject::VertexObject(b.into_vertex_object(vao, vao + 1, None)))
    };
    let a = make(&mut ctx, 10);
    let b = make(&mut ctx, 20);

    ctx.try_bind_vertex_object(a).unwrap();
    assert!(matches!(
        ctx.try_bind_vertex_object(b),
        Err(Error::AnotherVertexObjectBound)
    ));
    assert_eq!(ctx.get_current_bound_vertex_object(), Some(a));
    assert!(ctx.vertex_object_bound(a));
    assert!(!ctx.vertex_object_bound(b));

    assert_eq!(ctx.unbind_current_vertex_object(), Some(a));
    assert_eq!(ctx.get_current_bound_vertex_object(), None);
}

#[test]
fn indexed_vertex_object_binds_and_draws_through_element_buffer() {
    let mut ctx = fresh_context();
    let program = register_program(&mut ctx, 6);

    let data: Vec<u32> = vec![1, 2, 3, 4];
    let builder = VOBuilder::new(Primitive::TriangleStrip, Usage::DynamicDraw)
        .attribute("position", 1, &data)
        .unwrap()
        .indexes(&[0, 1, 2, 3, 1])
        .unwrap();
    let vo = builder.into_vertex_object(30, 31, Some(32));
    let vo_desc = ctx.register_object(GLObject::VertexObject(vo));

    ctx.try_use_program(program).unwrap();
    ctx.try_bind_vertex_object(vo_desc).unwrap();
    ctx.try_render().unwrap();

    let calls = ctx.take_pending_calls();
    assert_eq!(
        calls,
        vec![
            GlCall::UseProgram(6),
            GlCall::BindVertexArray(30),
            GlCall::BindElementArrayBuffer(32),
            GlCall::DrawElements { primitive: Primitive::TriangleStrip, count: 5 },
        ]
    );
}

#[test]
fn set_uniform_requires_active_program() {
    let mut ctx = fresh_context();
    let uniform = Uniform::new_1i("u_samples", 4);
    assert!(matches!(
        ctx.try_set_uniform(&uniform, 2),
        Err(Error::NoActiveProgram)
    ));

    let program = register_program(&mut ctx, 8);
    ctx.try_use_program(program).unwrap();
    ctx.try_set_uniform(&uniform, 2).unwrap();

    let calls = ctx.take_pending_calls();
    assert_eq!(
        calls,
        vec![
            GlCall::UseProgram(8),
            GlCall::SetUniform { location: 2, value: UniformType::I(4), transpose: false },
        ]
    );
}

#[test]
fn location_results_follow_the_native_sentinel() {
    assert_eq!(uniform_location_result("u_color", 3), Ok(3));
    assert_eq!(
        uniform_location_result("u_color", -1),
        Err(Error::UniformLocNotFound(String::from("u_color")))
    );
    assert_eq!(attrib_location_result("position", 2), Ok(2));
    assert_eq!(
        attrib_location_result("position", -1),
        Err(Error::AttributeLocNotFound(String::from("position")))
    );
}

#[test]
fn viewport_and_depth_test_are_recorded() {
    let mut ctx = fresh_context();
    ctx.try_enable_depth_test(None);
    ctx.viewport(0, 0, 800, 600);
    let calls = ctx.take_pending_calls();
    assert_eq!(
        calls,
        vec![
            GlCall::EnableDepthTest { func: None },
            GlCall::Viewport { x: 0, y: 0, width: 800, height: 600 },
        ]
    );
}

#[test]
fn linker_failure_surfaces_the_link_log() {
    let mut ctx = fresh_context();
    let linker = Linker::new(9);
    match linker.link(&mut ctx, LinkOutcome::Failed(String::from("bad varyings"))) {
        Err(Error::ProgramLink(log)) => assert_eq!(log, "bad varyings"),
        other => panic!("expected a link error, got {:?}", other.map(|_| ())),
    }
}

#[test]
fn linker_success_registers_program_with_stage_paths() {
    let mut ctx = fresh_context();
    let vertex =
        Shader::from_outcome(String::from("a.vert"), "a.vert", CompileOutcome::Compiled(11))
            .unwrap();
    let fragment =
        Shader::from_outcome(String::from("a.frag"), "a.frag", CompileOutcome::Compiled(12))
            .unwrap();
    let linker = Linker::new(13).attach_shader(vertex).attach_shader(fragment);
    assert_eq!(linker.shader_ids(), vec![11, 12]);

    let desc = linker.link(&mut ctx, LinkOutcome::Linked).unwrap();
    let program = ctx.get_program(desc).unwrap();
    assert_eq!(program.gl_object_id, 13);
    assert_eq!(program.shader_src_paths, vec![String::from("a.vert"), String::from("a.frag")]);
}

#[test]
fn shader_compile_failure_names_stage_and_log() {
    match Shader::from_outcome(
        String::from("bad.frag"),
        "bad.frag",
        CompileOutcome::Failed(String::from("syntax error")),
    ) {
        Err(Error::ShaderCompile { shader_name, reason }) => {
            assert_eq!(shader_name, "bad.frag");
            assert_eq!(reason, "syntax error");
        }
        other => panic!("expected a compile error, got {:?}", other.map(|_| ())),
    }
}


#[test]
fn unbind_after_removal_clears_the_binding_without_native_calls() {
    let mut ctx = fresh_context();
    let data: Vec<u32> = vec![1, 2, 3];
    let builder = VOBuilder::new(Primitive::Triangles, Usage::StaticDraw)
        .attribute("position", 1, &data)
        .unwrap();
    let vo_desc = ctx.register_object(GLObject::VertexObject(builder.into_vertex_object(4, 5, None)));
    ctx.try_bind_vertex_object(vo_desc).unwrap();
    ctx.take_pending_calls();

    // the resource goes away while still bound
    let removed = ctx.remove_object(vo_desc);
    assert!(matches!(removed, Some(GLObject::VertexObject(_))));

    // the stale binding is cleared silently
    assert_eq!(ctx.unbind_current_vertex_object(), None);
    assert_eq!(ctx.get_current_bound_vertex_object(), None);
    assert!(ctx.take_pending_calls().is_empty());

    // with a program in use, rendering now reports the missing vertex
    // object rather than resolving the stale handle
    let program = register_program(&mut ctx, 44);
    ctx.try_use_program(program).unwrap();
    assert!(matches!(ctx.try_render(), Err(Error::NoBoundVertexObject)));
}
