use interprocess::error::Error;
use interprocess::name::NameKind;
use interprocess::name_type::{GenericFilePath, GenericNamespaced, NameType, NamespacedNameType,
    PathNameType};
use interprocess::platform::Platform;

fn bytes(s: &str) -> Vec<u8> {
    s.as_bytes().to_vec()
}

#[test]
fn both_generic_markers_are_supported() {
    assert!(GenericFilePath::is_supported());
    assert!(GenericNamespaced::is_supported());
}

#[test]
fn namespaced_mapping_is_deterministic_on_every_family() {
    let input = bytes("example.sock");
    for p in [Platform::Windows, Platform::Linux, Platform::OtherUnix] {
        let a = GenericNamespaced::map_on(p, &input).expect("mapping should succeed");
        let b = GenericNamespaced::map_on(p, &input).expect("mapping should succeed");
        assert!(a.same_as(&b));
    }
}

#[test]
fn path_mapping_is_deterministic() {
    let input = bytes("/tmp/example.sock");
    let a = GenericFilePath::map(&input).expect("mapping should succeed");
    let b = GenericFilePath::map(&input).expect("mapping should succeed");
    assert!(a.same_as(&b));
}

#[test]
fn namespaced_mapping_on_linux_family_is_identity_into_abstract_namespace() {
    let input = bytes("example.sock");
    let n = GenericNamespaced::map_on(Platform::Linux, &input).unwrap();
    assert_eq!(n.kind(), NameKind::Namespaced);
    assert_eq!(n.raw_bytes().as_slice(), b"example.sock");
}

#[test]
fn namespaced_mapping_on_windows_family_prepends_pipe_namespace() {
    let input = bytes("example.sock");
    let n = GenericNamespaced::map_on(Platform::Windows, &input).unwrap();
    assert_eq!(n.kind(), NameKind::Namespaced);
    assert_eq!(n.raw_bytes().as_slice(), b"\\\\.\\pipe\\example.sock");
}

#[test]
fn namespaced_mapping_on_other_unix_family_falls_back_to_tmp_path() {
    let input = bytes("example.sock");
    let n = GenericNamespaced::map_on(Platform::OtherUnix, &input).unwrap();
    assert_eq!(n.kind(), NameKind::Path);
    assert_eq!(n.raw_bytes().as_slice(), b"/tmp/example.sock");
}

#[test]
fn path_mapping_performs_no_transformation() {
    let input = bytes("/run/user/example.sock");
    let n = GenericFilePath::map(&input).unwrap();
    assert_eq!(n.kind(), NameKind::Path);
    assert_eq!(n.raw_bytes().as_slice(), b"/run/user/example.sock");
}

#[test]
fn namespaced_mapping_enforces_abstract_ceiling_exactly() {
    let at_limit = vec![b'x'; 107];
    let over_limit = vec![b'x'; 108];
    assert!(GenericNamespaced::map_on(Platform::Linux, &at_limit).is_ok());
    assert_eq!(
        GenericNamespaced::map_on(Platform::Linux, &over_limit).unwrap_err(),
        Error::MalformedInput
    );
    // The same over-ceiling input is fine where the backing namespace has no
    // such ceiling.
    assert!(GenericNamespaced::map_on(Platform::Windows, &over_limit).is_ok());
}

#[test]
fn empty_inputs_are_malformed_everywhere() {
    let empty: Vec<u8> = Vec::new();
    for p in [Platform::Windows, Platform::Linux, Platform::OtherUnix] {
        assert_eq!(
            GenericNamespaced::map_on(p, &empty).unwrap_err(),
            Error::MalformedInput
        );
    }
    assert_eq!(GenericFilePath::map(&empty).unwrap_err(), Error::MalformedInput);
}

#[test]
fn embedded_nul_bytes_are_malformed_in_paths_and_pipe_names() {
    let with_nul = b"exa\0mple".to_vec();
    assert_eq!(GenericFilePath::map(&with_nul).unwrap_err(), Error::MalformedInput);
    assert_eq!(
        GenericNamespaced::map_on(Platform::Windows, &with_nul).unwrap_err(),
        Error::MalformedInput
    );
    assert_eq!(
        GenericNamespaced::map_on(Platform::OtherUnix, &with_nul).unwrap_err(),
        Error::MalformedInput
    );
    // The abstract namespace is length-delimited, not NUL-terminated.
    assert!(GenericNamespaced::map_on(Platform::Linux, &with_nul).is_ok());
}

#[test]
fn names_of_different_kinds_differ() {
    let ns = GenericNamespaced::map_on(Platform::Linux, &bytes("/tmp/alike")).unwrap();
    let fs = GenericFilePath::map(&bytes("/tmp/alike")).unwrap();
    assert!(!ns.same_as(&fs));
    assert!(fs.same_as(&fs.duplicate()));
}
