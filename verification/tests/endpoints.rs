use sandbox_host::bridge::ModuleResult;
use sandbox_host::endpoints::{
    argument_vector, bytes, decoded_body, ensure_linked, expect_bytes, expect_text, fib_c,
    html_template, index, jpeg_resize_c, msghash_check_c, tflite, xml_to_json, StringCopy, LIMIT,
};
use sandbox_host::fault::Fault;
use sandbox_host::service_directory::ModuleRegistry;

#[test]
fn root_greets() {
    assert_eq!(index(), "Hello, world!");
}

#[test]
fn sample_bytes_are_three_digits() {
    assert_eq!(bytes(), vec![48, 49, 50]);
}

#[test]
fn linking_can_be_ensured_more_than_once() {
    ensure_linked();
    ensure_linked();
}

#[test]
fn arguments_start_with_an_empty_placeholder() {
    assert_eq!(argument_vector(vec![]), vec![String::new()]);
    assert_eq!(
        argument_vector(vec!["10".to_string()]),
        vec![String::new(), "10".to_string()]
    );
    assert_eq!(
        argument_vector(vec!["message".to_string(), "hash".to_string()]),
        vec![String::new(), "message".to_string(), "hash".to_string()]
    );
}

#[test]
fn body_is_read_as_text() {
    let body = StringCopy::from_data("a=1&b=\u{4e16}".as_bytes()).unwrap();
    assert_eq!(body.0, "a=1&b=\u{4e16}");
    let empty = StringCopy::from_data(&[]).unwrap();
    assert_eq!(empty.0, "");
}

#[test]
fn body_that_is_no_text_is_refused() {
    assert!(matches!(StringCopy::from_data(&[b'a', 0xff]), Err(Fault::MalformedText)));
    assert!(matches!(StringCopy::from_data(&[0xc3]), Err(Fault::MalformedText)));
}

#[test]
fn body_is_cut_at_the_limit() {
    assert_eq!(LIMIT, 4194304);
    let mut data: Vec<u8> = vec![b'x'; 4194304];
    let whole = StringCopy::from_data(&data).unwrap();
    assert_eq!(whole.0.len(), 4194304);
    data.push(b'y');
    data.push(0xff);
    let cut = StringCopy::from_data(&data).unwrap();
    assert_eq!(cut.0.len(), 4194304);
    assert!(cut.0.bytes().all(|b| b == b'x'));
}

#[test]
fn body_cut_inside_a_character_is_refused() {
    let mut data: Vec<u8> = vec![b'x'; 4194303];
    data.push(0xc3);
    data.push(0xa9);
    assert!(matches!(StringCopy::from_data(&data), Err(Fault::MalformedText)));
}

#[test]
fn undecodable_body_is_malformed() {
    assert_eq!(decoded_body(None), Err(Fault::MalformedText));
    assert_eq!(decoded_body(Some("a b".to_string())), Ok("a b".to_string()));
}

#[test]
fn text_is_expected_of_a_text_endpoint() {
    assert_eq!(expect_text(Ok(ModuleResult::String("55".to_string()))), Ok("55".to_string()));
    assert_eq!(
        expect_text(Ok(ModuleResult::ByteArray(vec![1]))),
        Err(Fault::ResultTypeMismatch)
    );
    assert_eq!(expect_text(Ok(ModuleResult::Empty)), Err(Fault::ResultTypeMismatch));
    assert_eq!(expect_text(Err(Fault::RunTrapped)), Err(Fault::RunTrapped));
}

#[test]
fn bytes_are_expected_of_a_byte_endpoint() {
    assert_eq!(expect_bytes(Ok(ModuleResult::ByteArray(vec![1, 2]))), Ok(vec![1, 2]));
    assert_eq!(
        expect_bytes(Ok(ModuleResult::String("1".to_string()))),
        Err(Fault::ResultTypeMismatch)
    );
    assert_eq!(expect_bytes(Ok(ModuleResult::Empty)), Err(Fault::ResultTypeMismatch));
    assert_eq!(expect_bytes(Err(Fault::ResultAbsent)), Err(Fault::ResultAbsent));
}

#[test]
fn module_absent_from_cache_and_directory_is_not_found() {
    let registry = ModuleRegistry::new();
    let dir = "/no/such/directory";
    assert_eq!(fib_c(&registry, dir, "10", "nospectre"), Err(Fault::ModuleNotFound));
    assert_eq!(jpeg_resize_c(&registry, dir, "80", "lfence"), Err(Fault::ModuleNotFound));
    assert_eq!(html_template(&registry, dir, "lfence"), Err(Fault::ModuleNotFound));
    assert_eq!(tflite(&registry, dir, ""), Err(Fault::ModuleNotFound));
    assert_eq!(
        msghash_check_c(&registry, dir, StringCopy("hello".to_string()), "2cf2", "lfence"),
        Err(Fault::ModuleNotFound)
    );
    assert_eq!(
        xml_to_json(&registry, dir, StringCopy("%3Ca%2F%3E".to_string()), "lfence"),
        Err(Fault::ModuleNotFound)
    );
}

#[test]
fn randomized_variant_bypasses_the_cache() {
    let registry = ModuleRegistry::new();
    let dir = "/no/such/directory";
    assert_eq!(fib_c(&registry, dir, "10", "nospectre_aslr"), Err(Fault::ArtifactLoadFailed));
    assert_eq!(jpeg_resize_c(&registry, dir, "80", "_aslr"), Err(Fault::ArtifactLoadFailed));
    assert_eq!(html_template(&registry, dir, "x_aslr_y"), Err(Fault::ArtifactLoadFailed));
    assert_eq!(tflite(&registry, dir, "lfence_aslr"), Err(Fault::ArtifactLoadFailed));
    assert_eq!(
        msghash_check_c(&registry, dir, StringCopy("hello".to_string()), "2cf2", "lfence_aslr"),
        Err(Fault::ArtifactLoadFailed)
    );
    assert_eq!(
        xml_to_json(&registry, dir, StringCopy("%3Ca%2F%3E".to_string()), "lfence_aslr"),
        Err(Fault::ArtifactLoadFailed)
    );
}

#[test]
fn body_that_decodes_to_no_text_is_refused_before_anything_runs() {
    let registry = ModuleRegistry::new();
    let dir = "/no/such/directory";
    assert_eq!(
        msghash_check_c(&registry, dir, StringCopy("%FF".to_string()), "2cf2", "lfence"),
        Err(Fault::MalformedText)
    );
    assert_eq!(
        xml_to_json(&registry, dir, StringCopy("a%C3".to_string()), "lfence_aslr"),
        Err(Fault::MalformedText)
    );
    assert_eq!(
        xml_to_json(&registry, dir, StringCopy("a%C3%A9".to_string()), "lfence"),
        Err(Fault::ModuleNotFound)
    );
    assert_eq!(
        msghash_check_c(&registry, dir, StringCopy("%ZZ%".to_string()), "2cf2", "lfence"),
        Err(Fault::ModuleNotFound)
    );
}
