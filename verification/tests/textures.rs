use glcore::{
    Error, GLContext, GLObject, GLObjectDescriptor, GLObjectRegistry, GlCall, Texture,
    TextureBuilder, TextureFilterParam, TextureParamSetting, TextureType, TextureUnit,
    TextureWrapParam, NUM_TEXTURE_UNITS,
};

fn context_with_units(units: usize) -> GLContext {
    GLContext::new(GLObjectRegistry::new(16, 16), units)
}

fn register_texture(ctx: &mut GLContext, id: u32) -> GLObjectDescriptor {
    ctx.register_object(GLObject::Texture(Texture {
        gl_object_id: id,
        kind: TextureType::Texture2D,
        src: String::from("bricks.png"),
    }))
}

#[test]
fn activate_texture_is_idempotent() {
    let mut ctx = context_with_units(4);
    let tex = register_texture(&mut ctx, 100);

    let first = ctx.activate_texture(tex, false).unwrap();
    let calls_after_first = ctx.take_pending_calls();
    assert_eq!(first, TextureUnit::Texture0);
    assert_eq!(
        calls_after_first,
        vec![
            GlCall::ActiveTexture(TextureUnit::Texture0),
            GlCall::BindTexture { target: TextureType::Texture2D, id: 100 },
        ]
    );

    // a second activation returns the same unit, records nothing, and
    // consumes no second unit
    let second = ctx.activate_texture(tex, false).unwrap();
    assert_eq!(second, TextureUnit::Texture0);
    assert!(ctx.take_pending_calls().is_empty());

    let other = register_texture(&mut ctx, 101);
    assert_eq!(ctx.activate_texture(other, false).unwrap(), TextureUnit::Texture1);
}

#[test]
fn activate_texture_fails_when_all_units_are_occupied() {
    let mut ctx = context_with_units(2);
    let t0 = register_texture(&mut ctx, 1);
    let t1 = register_texture(&mut ctx, 2);
    let t2 = register_texture(&mut ctx, 3);

    assert_eq!(ctx.activate_texture(t0, false).unwrap(), TextureUnit::Texture0);
    assert_eq!(ctx.activate_texture(t1, false).unwrap(), TextureUnit::Texture1);
    assert!(matches!(
        ctx.activate_texture(t2, false),
        Err(Error::MaxActiveTextures)
    ));

    // the already-active textures are unaffected
    assert_eq!(ctx.activate_texture(t0, false).unwrap(), TextureUnit::Texture0);
}

#[test]
fn activate_texture_with_mipmap_records_regeneration() {
    let mut ctx = context_with_units(4);
    let tex = register_texture(&mut ctx, 5);
    ctx.activate_texture(tex, true).unwrap();
    let calls = ctx.take_pending_calls();
    assert_eq!(
        calls,
        vec![
            GlCall::ActiveTexture(TextureUnit::Texture0),
            GlCall::BindTexture { target: TextureType::Texture2D, id: 5 },
            GlCall::GenerateMipmap(TextureType::Texture2D),
        ]
    );
}

#[test]
fn activate_texture_rejects_invalid_handle() {
    let mut ctx = context_with_units(4);
    let forged = GLObjectDescriptor::new_texture_descriptor(9, 0);
    assert!(matches!(
        ctx.activate_texture(forged, false),
        Err(Error::InvalidObjectDescriptor)
    ));
}

#[test]
fn deactivate_texture_frees_the_unit_for_reuse() {
    let mut ctx = context_with_units(4);
    let t0 = register_texture(&mut ctx, 1);
    let t1 = register_texture(&mut ctx, 2);
    ctx.activate_texture(t0, false).unwrap();
    ctx.activate_texture(t1, false).unwrap();
    ctx.take_pending_calls();

    assert_eq!(ctx.deactivate_texture(t0), Some(t0));
    let calls = ctx.take_pending_calls();
    assert_eq!(
        calls,
        vec![
            GlCall::ActiveTexture(TextureUnit::Texture0),
            GlCall::BindTexture { target: TextureType::Texture2D, id: 0 },
        ]
    );

    // deactivating a texture that occupies no unit is a silent no-op
    assert_eq!(ctx.deactivate_texture(t0), None);
    assert!(ctx.take_pending_calls().is_empty());

    // the freed unit is the first choice for the next activation
    let t2 = register_texture(&mut ctx, 3);
    assert_eq!(ctx.activate_texture(t2, false).unwrap(), TextureUnit::Texture0);
}

#[test]
fn texture_unit_iter_walks_all_units_in_order() {
    let mut iter = TextureUnit::iter();
    let mut seen = Vec::new();
    while let Some(unit) = iter.next() {
        seen.push(unit);
    }
    assert_eq!(seen.len(), NUM_TEXTURE_UNITS);
    assert_eq!(seen[0], TextureUnit::Texture0);
    assert_eq!(seen[15], TextureUnit::Texture15);
    assert_eq!(iter.next(), None);
}

#[test]
fn texture_unit_try_from_covers_the_range() {
    assert_eq!(TextureUnit::try_from(0), Ok(TextureUnit::Texture0));
    assert_eq!(TextureUnit::try_from(15), Ok(TextureUnit::Texture15));
    assert_eq!(TextureUnit::try_from(16), Err(Error::InvalidTextureUnit(16)));
    assert_eq!(TextureUnit::Texture7.index_usize(), 7);
}

#[test]
fn texture_builder_validates_byte_count() {
    let pixels = vec![0u8; 16];
    let builder = TextureBuilder::new_2d_rgba8(String::from("two.png"), pixels, 2, 2).unwrap();
    assert_eq!(builder.width, 2);
    assert_eq!(builder.height, 2);

    let short = vec![0u8; 15];
    assert!(matches!(
        TextureBuilder::new_2d_rgba8(String::from("two.png"), short, 2, 2),
        Err(Error::Misc(_))
    ));
}

#[test]
fn texture_builder_records_only_requested_parameters() {
    let pixels = vec![0u8; 4];
    let builder = TextureBuilder::new_2d_rgba8(String::from("one.png"), pixels, 1, 1)
        .unwrap()
        .t_wrap(TextureWrapParam::Repeat)
        .min_filter(TextureFilterParam::LinearMipmapLinear);

    // untouched parameters stay untouched, and order is S, T, R, min, mag
    assert_eq!(
        builder.param_settings(),
        vec![
            TextureParamSetting::TWrap(TextureWrapParam::Repeat),
            TextureParamSetting::MinFilter(TextureFilterParam::LinearMipmapLinear),
        ]
    );

    let texture = builder.into_texture(77);
    assert_eq!(texture.gl_object_id, 77);
    assert_eq!(texture.src, "one.png");
}

#[test]
fn texture_builder_keeps_border_colour_bits() {
    let pixels = vec![0u8; 4];
    let border = TextureWrapParam::ClampToBorder(
        1.0f32.to_bits(),
        0.5f32.to_bits(),
        0.25f32.to_bits(),
        1.0f32.to_bits(),
    );
    let builder = TextureBuilder::new_2d_rgba8(String::from("b.png"), pixels, 1, 1)
        .unwrap()
        .s_wrap(border);
    assert_eq!(builder.param_settings(), vec![TextureParamSetting::SWrap(border)]);
}


#[test]
fn deactivate_after_removal_still_frees_the_unit_silently() {
    let mut ctx = context_with_units(4);
    let tex = register_texture(&mut ctx, 8);
    ctx.activate_texture(tex, false).unwrap();
    ctx.take_pending_calls();

    // the resource goes away while its unit is still occupied
    assert!(ctx.remove_object(tex).is_some());

    // the unit is freed, but nothing is returned and no call is recorded
    assert_eq!(ctx.deactivate_texture(tex), None);
    assert!(ctx.take_pending_calls().is_empty());

    // the freed unit is available again
    let other = register_texture(&mut ctx, 9);
    assert_eq!(ctx.activate_texture(other, false).unwrap(), TextureUnit::Texture0);
}

#[test]
fn activate_after_removal_reports_the_invalid_handle() {
    let mut ctx = context_with_units(4);
    let tex = register_texture(&mut ctx, 8);
    assert!(ctx.remove_object(tex).is_some());
    assert!(matches!(
        ctx.activate_texture(tex, false),
        Err(Error::InvalidObjectDescriptor)
    ));
}
