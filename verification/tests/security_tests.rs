use interprocess::security::SecurityDescriptor;

fn sd(text: &str) -> SecurityDescriptor {
    SecurityDescriptor::from_canonical(text.as_bytes().to_vec())
}

#[test]
fn serialization_round_trips_and_cloning_is_deep() {
    let a = sd("O:BAG:SYD:(A;;GA;;;WD)(A;;GR;;;BA)");
    let b = a.duplicate();
    assert_eq!(a.serialize_canonical(), b.serialize_canonical());
    assert_eq!(
        a.serialize_canonical().as_slice(),
        b"O:BAG:SYD:(A;;GA;;;WD)(A;;GR;;;BA)"
    );
}

#[test]
fn owner_and_group_rewriting_keeps_the_acl_section_identical() {
    // Same discretionary ACL, rewritten owner and group header tokens: equal
    // from the first ACL-section byte onward, with the same entry count.
    let before = sd("O:BAG:SYD:(A;;GA;;;WD)(A;;GR;;;BA)");
    let rewritten = sd("O:SYG:BAD:(A;;GA;;;WD)(A;;GR;;;BA)");
    assert!(before.acl_matches(&rewritten));
    assert_eq!(before.acl_entry_count(), rewritten.acl_entry_count());
    assert_eq!(before.acl_entry_count(), 2);
}

#[test]
fn differing_acl_sections_do_not_match() {
    let two_entries = sd("O:BAG:SYD:(A;;GA;;;WD)(A;;GR;;;BA)");
    let one_entry = sd("O:BAG:SYD:(A;;GA;;;WD)");
    assert!(!two_entries.acl_matches(&one_entry));
    assert_eq!(one_entry.acl_entry_count(), 1);
}

#[test]
fn descriptors_without_an_acl_section_count_no_entries() {
    let header_only = sd("O:BAG:SY");
    assert_eq!(header_only.acl_entry_count(), 0);
    // Two descriptors with no ACL section agree vacuously from the (absent)
    // first ACL-section byte onward.
    let other_header = sd("O:SYG:BA");
    assert!(header_only.acl_matches(&other_header));
}

#[test]
fn acl_comparison_ignores_nothing_inside_the_section() {
    let a = sd("O:BAG:SYD:(A;;GA;;;WD)");
    let b = sd("O:BAG:SYD:(A;;GW;;;WD)");
    assert!(!a.acl_matches(&b));
    assert_eq!(a.acl_entry_count(), b.acl_entry_count());
}
