use signature::build_time::{resolve_image, HEADER_SIZE};
use signature::dynamic_signature::DynamicSignature;
use signature::pattern::{find_pattern, Pattern};
use signature::static_signature::StaticSignature;
use signature::{ModuleRegion, Signature};

fn sample_pattern() -> Pattern {
    vec![Some(0xB8), Some(0x4D), Some(0x5A), Some(0x00), Some(0x00)]
}

/// A file image holding the sample pattern's bytes starting at `offset`.
fn image_with_pattern_at(offset: usize) -> Vec<u8> {
    let mut image = vec![0x90u8; offset];
    image.extend_from_slice(&[0xB8, 0x4D, 0x5A, 0x00, 0x00]);
    image.extend_from_slice(&[0xCC, 0xCC, 0xCC]);
    image
}

/// Live memory as a mapped module would show it: a header of `HEADER_SIZE`
/// bytes followed by the file image.
fn live_region(base: usize, image: &[u8]) -> ModuleRegion {
    let mut bytes = vec![0u8; HEADER_SIZE];
    bytes.extend_from_slice(image);
    ModuleRegion { base, bytes }
}

#[test]
fn dynamic_static_equality() {
    let image = image_with_pattern_at(0x500);
    let (offset, sanity) =
        resolve_image(&image, &sample_pattern()).expect("pattern must be found in the image");

    let mut dynamic_sig = DynamicSignature::new(String::from("mtxex.dll"), sample_pattern());
    let mut static_sig = StaticSignature::new((String::from("mtxex.dll"), offset, sanity));

    let region = live_region(0x7FF80000, &image);
    let dynamic_addr = dynamic_sig.get(Some(&region));
    let static_addr = static_sig.get(Some(&region));

    assert_eq!(dynamic_addr, static_addr);
    assert!(dynamic_addr.is_some());
}

#[test]
fn build_offset_scenario() {
    // The pattern starts at file offset 0x500, so the stored offset is
    // 0x500 + 0xC00 = 0x1100 and the sanity byte is the image byte at 0x500.
    let image = image_with_pattern_at(0x500);
    let resolved = resolve_image(&image, &sample_pattern());
    assert_eq!(resolved, Some((0x1100, 0xB8)));
}

#[test]
fn build_fails_when_pattern_absent() {
    let image = vec![0x90u8; 0x100];
    assert_eq!(resolve_image(&image, &sample_pattern()), None);
}

#[test]
fn wildcards_match_at_first_offset() {
    let pattern: Pattern = vec![None, None, None];
    let buffer = vec![0x11u8, 0x22, 0x33, 0x44];
    assert_eq!(find_pattern(&buffer, &pattern), Some(0));

    let mut sig = DynamicSignature::new(String::from("any.dll"), vec![None, None, None]);
    let region = ModuleRegion { base: 0x4000, bytes: buffer };
    assert_eq!(sig.get(Some(&region)), Some(0x4000));
}

#[test]
fn sanity_mismatch_returns_none() {
    let mut sig = StaticSignature::new((String::from("m.dll"), 2, 0xAA));
    let region = ModuleRegion { base: 0x1000, bytes: vec![0, 1, 0xBB, 3] };
    assert_eq!(sig.get(Some(&region)), None);

    // The failure is not cached: once the byte is right, resolution succeeds.
    let fixed = ModuleRegion { base: 0x1000, bytes: vec![0, 1, 0xAA, 3] };
    assert_eq!(sig.get(Some(&fixed)), Some(0x1002));
}

#[test]
fn static_offset_outside_region_returns_none() {
    let mut sig = StaticSignature::new((String::from("m.dll"), 10, 0xAA));
    let region = ModuleRegion { base: 0x1000, bytes: vec![0xAA, 0xAA] };
    assert_eq!(sig.get(Some(&region)), None);
}

#[test]
fn dynamic_resolve_is_idempotent() {
    let mut sig = DynamicSignature::new(String::from("m.dll"), vec![Some(0x7F)]);
    let region = ModuleRegion { base: 0x2000, bytes: vec![0x00, 0x7F, 0x00] };
    let first = sig.get(Some(&region));
    assert_eq!(first, Some(0x2001));

    // The cache is sticky: a moved pattern, or no module at all, changes
    // nothing once resolution has succeeded.
    let moved = ModuleRegion { base: 0x2000, bytes: vec![0x7F, 0x00, 0x00] };
    assert_eq!(sig.get(Some(&moved)), first);
    assert_eq!(sig.get(None), first);
}

#[test]
fn static_resolve_is_idempotent() {
    let mut sig = StaticSignature::new((String::from("m.dll"), 1, 0x7F));
    let region = ModuleRegion { base: 0x2000, bytes: vec![0x00, 0x7F, 0x00] };
    let first = sig.get(Some(&region));
    assert_eq!(first, Some(0x2001));

    let changed = ModuleRegion { base: 0x2000, bytes: vec![0x00, 0x00, 0x00] };
    assert_eq!(sig.get(Some(&changed)), first);
    assert_eq!(sig.get(None), first);
}

#[test]
fn absent_module_returns_none() {
    let mut dynamic_sig = DynamicSignature::new(String::from("gone.dll"), sample_pattern());
    assert_eq!(dynamic_sig.get(None), None);

    let mut static_sig = StaticSignature::new((String::from("gone.dll"), 0x1100, 0xB8));
    assert_eq!(static_sig.get(None), None);
}

#[test]
fn dynamic_pattern_absent_then_found() {
    let mut sig = DynamicSignature::new(String::from("m.dll"), vec![Some(0xDE), Some(0xAD)]);
    let without = ModuleRegion { base: 0x3000, bytes: vec![0x01, 0x02, 0x03] };
    assert_eq!(sig.get(Some(&without)), None);

    // A failed resolution is not cached either: a later call may succeed.
    let with = ModuleRegion { base: 0x3000, bytes: vec![0x01, 0xDE, 0xAD, 0x03] };
    assert_eq!(sig.get(Some(&with)), Some(0x3001));
}

#[test]
fn dynamic_resolves_first_of_several_matches() {
    let mut sig = DynamicSignature::new(String::from("m.dll"), vec![Some(0x7F), None]);
    let bytes = vec![0x00, 0x7F, 0x11, 0x7F, 0x22];
    let region = ModuleRegion { base: 0x5000, bytes };
    assert_eq!(sig.get(Some(&region)), Some(0x5001));
}

#[test]
fn find_pattern_mixes_exact_and_wildcard_slots() {
    let pattern: Pattern = vec![Some(0x01), None, Some(0x03)];
    let buffer = vec![0x09u8, 0x01, 0x55, 0x03, 0x04];
    assert_eq!(find_pattern(&buffer, &pattern), Some(1));

    let wrong_tail: Pattern = vec![Some(0x01), None, Some(0x99)];
    assert_eq!(find_pattern(&buffer, &wrong_tail), None);
}

#[test]
fn find_pattern_longer_than_buffer_returns_none() {
    let pattern: Pattern = vec![Some(0x01), Some(0x02), Some(0x03)];
    let buffer = vec![0x01u8, 0x02];
    assert_eq!(find_pattern(&buffer, &pattern), None);
}
