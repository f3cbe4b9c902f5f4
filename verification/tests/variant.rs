use sandbox_host::variant::{artifact_file_name, artifact_name, contains_marker, ProtectionVariant};

#[test]
fn marker_is_found_anywhere_in_the_tag() {
    assert!(contains_marker("nospectre_aslr"));
    assert!(contains_marker("_aslr"));
    assert!(contains_marker("_aslr_lfence"));
    assert!(contains_marker("a_aslr_b"));
    assert!(contains_marker("__aslr"));
}

#[test]
fn tags_without_the_marker_are_not_randomized() {
    assert!(!contains_marker(""));
    assert!(!contains_marker("nospectre"));
    assert!(!contains_marker("lfence"));
    assert!(!contains_marker("aslr"));
    assert!(!contains_marker("_asl"));
    assert!(!contains_marker("_aSlr"));
    assert!(!contains_marker("_as_lr"));
}

#[test]
fn marker_is_found_behind_wide_characters() {
    assert!(contains_marker("\u{e9}\u{4e16}_aslr"));
    assert!(!contains_marker("\u{e9}\u{4e16}_asl"));
}

#[test]
fn parsed_variant_keeps_the_tag_as_given() {
    let plain = ProtectionVariant::parse("lfence");
    assert_eq!(plain.tag().as_str(), "lfence");
    assert!(!plain.is_randomized());
    let randomized = ProtectionVariant::parse("nospectre_aslr");
    assert_eq!(randomized.tag().as_str(), "nospectre_aslr");
    assert!(randomized.is_randomized());
}

#[test]
fn artifact_name_joins_endpoint_and_tag() {
    assert_eq!(artifact_name("fib_c", "nospectre"), "fib_c_nospectre");
    assert_eq!(artifact_name("fib_c", "nospectre_aslr"), "fib_c_nospectre_aslr");
    assert_eq!(artifact_name("", ""), "_");
}

#[test]
fn artifact_file_name_adds_the_extension() {
    assert_eq!(artifact_file_name("fib_c_lfence"), "fib_c_lfence.so");
    assert_eq!(artifact_file_name(""), ".so");
}
