use glcore::{
    Error, GLObject, GLObjectDescriptor, GLObjectRegistry, Texture, TextureType,
};

fn sample_texture(id: u32) -> GLObject {
    GLObject::Texture(Texture {
        gl_object_id: id,
        kind: TextureType::Texture2D,
        src: String::from("checker.png"),
    })
}

#[test]
fn registry_first_fill_has_no_growth_and_distinct_generations() {
    let mut registry = GLObjectRegistry::new(3, 2);
    assert_eq!(registry.current_capacity(), 3);

    let d0 = registry.register_object(sample_texture(1));
    let d1 = registry.register_object(sample_texture(2));
    let d2 = registry.register_object(sample_texture(3));

    // no growth while the initial capacity lasts
    assert_eq!(registry.current_capacity(), 3);
    assert_eq!(registry.slot_count(), 3);

    // pairwise distinct generations
    assert_ne!(d0.generation_id(), d1.generation_id());
    assert_ne!(d0.generation_id(), d2.generation_id());
    assert_ne!(d1.generation_id(), d2.generation_id());

    // all three handles still resolve
    assert!(registry.get_object(d0).is_ok());
    assert!(registry.get_object(d1).is_ok());
    assert!(registry.get_object(d2).is_ok());

    // the fourth registration grows the capacity by the increment and
    // still hands out a fresh, valid handle
    let d3 = registry.register_object(sample_texture(4));
    assert_eq!(registry.current_capacity(), 5);
    assert_eq!(registry.slot_count(), 4);
    assert!(registry.get_object(d3).is_ok());
    assert_ne!(d3.generation_id(), d2.generation_id());
}

#[test]
fn registry_get_after_remove_fails_with_invalid_handle() {
    let mut registry = GLObjectRegistry::new(4, 4);
    let desc = registry.register_object(sample_texture(7));
    assert!(registry.get_object(desc).is_ok());

    let removed = registry.remove_object(desc);
    assert!(removed.is_some());

    match registry.get_object(desc) {
        Err(Error::InvalidObjectDescriptor) => {}
        other => panic!("expected an invalid-handle error, got {:?}", other.map(|_| ())),
    }
}

#[test]
fn registry_generation_is_not_reused_even_when_slot_is() {
    let mut registry = GLObjectRegistry::new(4, 4);
    let first = registry.register_object(sample_texture(1));
    let first_gen = first.generation_id();

    registry.remove_object(first).expect("first handle should be valid");

    let second = registry.register_object(sample_texture(2));
    assert_ne!(second.generation_id(), first_gen);

    // the old handle stays invalid, the new one resolves
    assert!(matches!(registry.get_object(first), Err(Error::InvalidObjectDescriptor)));
    assert!(registry.get_object(second).is_ok());
}

#[test]
fn registry_remove_of_invalid_handle_returns_none() {
    let mut registry = GLObjectRegistry::new(4, 4);
    let never_issued = GLObjectDescriptor::new_texture_descriptor(42, 0);
    assert!(registry.remove_object(never_issued).is_none());
}

#[test]
fn registry_kind_mismatch_is_reported() {
    let mut registry = GLObjectRegistry::new(4, 4);
    let desc = registry.register_object(sample_texture(5));

    // a handle forged with the right generation and slot but the wrong kind
    let forged = GLObjectDescriptor::new_program_descriptor(desc.generation_id(), 0);
    assert!(matches!(
        registry.get_object(forged),
        Err(Error::UnexpectedObjectDescriptorKind)
    ));

    // typed lookup of the wrong kind through an honest handle
    assert!(matches!(
        registry.get_program(desc),
        Err(Error::UnexpectedObjectDescriptorKind)
    ));
    assert!(registry.get_texture(desc).is_ok());
}

#[test]
fn registry_never_issued_generation_is_invalid() {
    let registry = GLObjectRegistry::new(4, 4);
    let never_issued = GLObjectDescriptor::new_texture_descriptor(99, 0);
    assert!(matches!(
        registry.get_object(never_issued),
        Err(Error::InvalidObjectDescriptor)
    ));
}

#[test]
fn registry_default_matches_documented_capacity() {
    let registry = GLObjectRegistry::default();
    assert_eq!(registry.current_capacity(), 1024);
    assert_eq!(registry.slot_count(), 0);
}

#[test]
fn registry_reuses_first_empty_slot() {
    let mut registry = GLObjectRegistry::new(2, 2);
    let d0 = registry.register_object(sample_texture(1));
    let _d1 = registry.register_object(sample_texture(2));
    registry.remove_object(d0).unwrap();

    // the freed slot is reused in preference to growing
    let d2 = registry.register_object(sample_texture(3));
    assert_eq!(registry.slot_count(), 2);
    assert_eq!(registry.current_capacity(), 2);
    assert!(registry.get_object(d2).is_ok());
}
