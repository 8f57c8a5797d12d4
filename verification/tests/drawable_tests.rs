use flowmap::clock::HALF_CYCLE;
use flowmap::drawable::{
    accept_backend_build, BackendBuildOutcome, Drawable, ProgramHandle, SlotName,
};
use flowmap::error::FlowError;
use flowmap::geometry::create_quad;
use flowmap::shader::ProgramSource;
use flowmap::texture::TextureHandle;

fn texture() -> TextureHandle {
    TextureHandle { width: 1, height: 1, pixels: vec![0, 0, 0, 255] }
}

fn program(slots: Vec<SlotName>) -> ProgramHandle {
    let source = ProgramSource {
        tier: 150,
        vertex_source: b"v150".to_vec(),
        fragment_source: b"f150".to_vec(),
    };
    ProgramHandle::from_compiled(source, slots)
}

fn all_slots() -> Vec<SlotName> {
    vec![
        SlotName::Color,
        SlotName::Flow,
        SlotName::Noise,
        SlotName::Offset0,
        SlotName::Offset1,
    ]
}

#[test]
fn assemble_accepts_exactly_the_five_slots() {
    let d = Drawable::assemble(
        create_quad(),
        program(all_slots()),
        texture(),
        texture(),
        texture(),
        (0, HALF_CYCLE),
    )
    .unwrap();
    assert_eq!(d.params.offset0, 0);
    assert_eq!(d.params.offset1, HALF_CYCLE);
    assert_eq!(d.mesh.len(), 6);
}

#[test]
fn assemble_accepts_the_slots_in_any_order() {
    let slots = vec![
        SlotName::Offset1,
        SlotName::Noise,
        SlotName::Color,
        SlotName::Offset0,
        SlotName::Flow,
    ];
    assert!(Drawable::assemble(
        create_quad(),
        program(slots),
        texture(),
        texture(),
        texture(),
        (0, 0),
    )
    .is_ok());
}

#[test]
fn assemble_rejects_a_missing_slot() {
    let slots = vec![SlotName::Color, SlotName::Flow, SlotName::Noise, SlotName::Offset0];
    let r = Drawable::assemble(
        create_quad(),
        program(slots),
        texture(),
        texture(),
        texture(),
        (0, 0),
    );
    assert!(matches!(r, Err(FlowError::BindingMismatchError)));
}

#[test]
fn assemble_rejects_an_unknown_slot_name() {
    let slots = vec![
        SlotName::Color,
        SlotName::Flow,
        SlotName::Noise,
        SlotName::Offset0,
        SlotName::Unknown,
    ];
    let r = Drawable::assemble(
        create_quad(),
        program(slots),
        texture(),
        texture(),
        texture(),
        (0, 0),
    );
    assert!(matches!(r, Err(FlowError::BindingMismatchError)));
}

#[test]
fn assemble_rejects_a_duplicated_slot() {
    let slots = vec![
        SlotName::Color,
        SlotName::Color,
        SlotName::Flow,
        SlotName::Noise,
        SlotName::Offset0,
    ];
    let r = Drawable::assemble(
        create_quad(),
        program(slots),
        texture(),
        texture(),
        texture(),
        (0, 0),
    );
    assert!(matches!(r, Err(FlowError::BindingMismatchError)));
}

#[test]
fn assemble_rejects_extra_slots() {
    let mut slots = all_slots();
    slots.push(SlotName::Unknown);
    let r = Drawable::assemble(
        create_quad(),
        program(slots),
        texture(),
        texture(),
        texture(),
        (0, 0),
    );
    assert!(matches!(r, Err(FlowError::BindingMismatchError)));
}

fn source() -> flowmap::shader::ProgramSource {
    flowmap::shader::ProgramSource {
        tier: 120,
        vertex_source: b"v".to_vec(),
        fragment_source: b"f".to_vec(),
    }
}

#[test]
fn a_built_program_keeps_its_source_and_slots() {
    let p = accept_backend_build(source(), BackendBuildOutcome::Built(all_slots())).unwrap();
    assert_eq!(p.source.tier, 120);
    assert_eq!(p.declared_slots, all_slots());
}

#[test]
fn a_compile_failure_is_fatal_with_the_backend_diagnostic() {
    let r = accept_backend_build(
        source(),
        BackendBuildOutcome::CompileFailed(String::from("syntax error")),
    );
    match r {
        Err(FlowError::CompileError(d)) => assert_eq!(d, "syntax error"),
        _ => panic!("a compile failure must surface as CompileError"),
    }
}

#[test]
fn a_link_failure_is_fatal_with_the_backend_diagnostic() {
    let r = accept_backend_build(
        source(),
        BackendBuildOutcome::LinkFailed(String::from("unresolved varying")),
    );
    match r {
        Err(FlowError::LinkError(d)) => assert_eq!(d, "unresolved varying"),
        _ => panic!("a link failure must surface as LinkError"),
    }
}

#[test]
fn set_offsets_rewrites_only_the_scalar_slots() {
    let mut d = Drawable::assemble(
        create_quad(),
        program(all_slots()),
        texture(),
        texture(),
        texture(),
        (0, HALF_CYCLE),
    )
    .unwrap();
    d.set_offsets(7, 11);
    assert_eq!(d.params.offset0, 7);
    assert_eq!(d.params.offset1, 11);
    assert_eq!(d.params.color.pixels, vec![0, 0, 0, 255]);
    assert_eq!(d.mesh.len(), 6);
}
