use demo_tools::serialize::generate_users_document;
use demo_tools::validate::ValidationReport;
use demo_tools::validate::decode_users;
use demo_tools::validate::parse_document;
use demo_tools::validate::validate_text;

#[test]
fn generic_object_reports_exactly_its_keys() {
    match validate_text("{\"a\":1,\"b\":2}") {
        ValidationReport::ObjectKeys(keys) => {
            assert_eq!(keys, vec!["a".to_string(), "b".to_string()]);
        }
        _ => panic!("expected the generic key listing, with no user count"),
    }
}

#[test]
fn malformed_text_is_a_parse_error() {
    match validate_text("{not json") {
        ValidationReport::ParseError(msg) => assert!(!msg.is_empty()),
        _ => panic!("a parse error must stop all further processing"),
    }
}

#[test]
fn key_listing_caps_at_five() {
    let text = "{\"k1\":1,\"k2\":2,\"k3\":3,\"k4\":4,\"k5\":5,\"k6\":6,\"k7\":7}";
    match validate_text(text) {
        ValidationReport::ObjectKeys(keys) => {
            assert_eq!(keys.len(), 5);
            assert_eq!(keys[0], "k1");
            assert_eq!(keys[4], "k5");
        }
        _ => panic!("expected the generic key listing"),
    }
}

#[test]
fn typed_listing_caps_at_three_and_counts_the_rest() {
    let (_recs, text) = generate_users_document(7);
    match validate_text(&text) {
        ValidationReport::UserList { count, sample, remaining } => {
            assert_eq!(count, 7);
            assert_eq!(sample.len(), 3);
            assert_eq!(remaining, 4);
        }
        _ => panic!("expected the typed record listing"),
    }
}

#[test]
fn empty_array_is_a_typed_list_of_zero() {
    match validate_text("[]") {
        ValidationReport::UserList { count, sample, remaining } => {
            assert_eq!(count, 0);
            assert_eq!(sample.len(), 0);
            assert_eq!(remaining, 0);
        }
        _ => panic!("an empty array decodes as zero records"),
    }
}

#[test]
fn non_object_values_are_unstructured() {
    assert!(matches!(validate_text("42"), ValidationReport::Unstructured));
    assert!(matches!(validate_text("[1,2]"), ValidationReport::Unstructured));
    assert!(matches!(validate_text("\"hello\""), ValidationReport::Unstructured));
    assert!(matches!(validate_text("null"), ValidationReport::Unstructured));
}

#[test]
fn a_record_missing_a_field_falls_back() {
    let text = "[{\"id\":1,\"name\":\"n\",\"email\":\"e\",\"created_at\":\"t\"}]";
    assert!(matches!(validate_text(text), ValidationReport::Unstructured));
}

#[test]
fn a_record_with_a_wrongly_typed_field_falls_back() {
    let text = "[{\"id\":\"1\",\"name\":\"n\",\"email\":\"e\",\"created_at\":\"t\",\"uuid\":\"u\"}]";
    assert!(matches!(validate_text(text), ValidationReport::Unstructured));
}

#[test]
fn extra_fields_are_tolerated_by_the_strict_decode() {
    let text =
        "[{\"id\":1,\"name\":\"n\",\"email\":\"e\",\"created_at\":\"t\",\"uuid\":\"u\",\"extra\":true}]";
    match validate_text(text) {
        ValidationReport::UserList { count, .. } => assert_eq!(count, 1),
        _ => panic!("extra fields must not break the strict decode"),
    }
}

#[test]
fn id_bounds_decide_the_strict_decode() {
    let too_big =
        "[{\"id\":4294967296,\"name\":\"n\",\"email\":\"e\",\"created_at\":\"t\",\"uuid\":\"u\"}]";
    assert!(decode_users(&parse_document(too_big).unwrap()).is_none());
    let fractional =
        "[{\"id\":1.5,\"name\":\"n\",\"email\":\"e\",\"created_at\":\"t\",\"uuid\":\"u\"}]";
    assert!(decode_users(&parse_document(fractional).unwrap()).is_none());
    let negative =
        "[{\"id\":-1,\"name\":\"n\",\"email\":\"e\",\"created_at\":\"t\",\"uuid\":\"u\"}]";
    assert!(decode_users(&parse_document(negative).unwrap()).is_none());
    let max = "[{\"id\":4294967295,\"name\":\"n\",\"email\":\"e\",\"created_at\":\"t\",\"uuid\":\"u\"}]";
    let users = decode_users(&parse_document(max).unwrap()).unwrap();
    assert_eq!(users[0].id, u32::MAX);
}

#[test]
fn parse_document_rejects_only_invalid_json() {
    assert!(parse_document("{}").is_ok());
    assert!(parse_document("[true, null, 0]").is_ok());
    assert!(parse_document("").is_err());
    assert!(parse_document("{\"a\":}").is_err());
}
