use flowmap::error::FlowError;
use flowmap::shader::{link, BackendCapabilities, ShaderVariant};

fn variants(entries: &[(u32, &[u8])]) -> Vec<ShaderVariant> {
    entries
        .iter()
        .map(|(tier, source)| ShaderVariant { tier: *tier, source: source.to_vec() })
        .collect()
}

#[test]
fn link_selects_the_highest_mutually_supported_tier() {
    let vs = variants(&[(120, b"v120"), (150, b"v150")]);
    let fs = variants(&[(120, b"f120"), (150, b"f150")]);
    let caps = BackendCapabilities { tiers: vec![120, 150] };
    let p = link(&vs, &fs, &caps).unwrap();
    assert_eq!(p.tier, 150);
    assert_eq!(p.vertex_source.as_slice(), b"v150");
    assert_eq!(p.fragment_source.as_slice(), b"f150");
}

#[test]
fn link_falls_back_to_the_lower_tier_when_the_backend_lacks_the_higher() {
    let vs = variants(&[(120, b"v120"), (150, b"v150")]);
    let fs = variants(&[(120, b"f120"), (150, b"f150")]);
    let caps = BackendCapabilities { tiers: vec![120] };
    let p = link(&vs, &fs, &caps).unwrap();
    assert_eq!(p.tier, 120);
    assert_eq!(p.vertex_source.as_slice(), b"v120");
    assert_eq!(p.fragment_source.as_slice(), b"f120");
}

#[test]
fn link_needs_both_stages_at_the_chosen_tier() {
    // the fragment set has no 150 variant, so 150 is no candidate even
    // though the vertex set and the backend both have it.
    let vs = variants(&[(120, b"v120"), (150, b"v150")]);
    let fs = variants(&[(120, b"f120")]);
    let caps = BackendCapabilities { tiers: vec![120, 150] };
    let p = link(&vs, &fs, &caps).unwrap();
    assert_eq!(p.tier, 120);
}

#[test]
fn link_fails_when_no_tier_is_mutually_supported() {
    let vs = variants(&[(150, b"v150")]);
    let fs = variants(&[(150, b"f150")]);
    let caps = BackendCapabilities { tiers: vec![120] };
    assert!(matches!(link(&vs, &fs, &caps), Err(FlowError::NoCompatibleVariantError)));
}

#[test]
fn link_fails_on_empty_variant_sets() {
    let vs = variants(&[]);
    let fs = variants(&[]);
    let caps = BackendCapabilities { tiers: vec![120, 150] };
    assert!(matches!(link(&vs, &fs, &caps), Err(FlowError::NoCompatibleVariantError)));
}

#[test]
fn link_is_deterministic_on_identical_inputs() {
    let vs = variants(&[(120, b"v120"), (150, b"v150")]);
    let fs = variants(&[(120, b"f120"), (150, b"f150")]);
    let caps = BackendCapabilities { tiers: vec![150, 120] };
    let first = link(&vs, &fs, &caps).unwrap();
    let second = link(&vs, &fs, &caps).unwrap();
    assert_eq!(first, second);
    assert_eq!(first.tier, 150);
}
