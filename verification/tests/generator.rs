use demo_tools::records::UserRecord;
use demo_tools::records::generate_records;
use demo_tools::serialize::generate_users_document;
use demo_tools::serialize::users_to_json;
use demo_tools::validate::ValidationReport;
use demo_tools::validate::validate_text;

fn record(id: u32, name: &str) -> UserRecord {
    UserRecord {
        id,
        name: name.to_string(),
        email: format!("user{}@example.com", id),
        created_at: "2024-01-01T00:00:00.000000Z".to_string(),
        uuid: "00000000-0000-4000-8000-000000000000".to_string(),
    }
}

#[test]
fn generates_exact_count_ids_names_and_emails() {
    let recs = generate_records(20);
    assert_eq!(recs.len(), 20);
    for (i, r) in recs.iter().enumerate() {
        assert_eq!(r.id as usize, i + 1);
        assert_eq!(r.email, format!("user{}@example.com", r.id));
    }
    assert_eq!(recs[0].name, "Aaliyah1");
    assert_eq!(recs[1].name, "Bjorn2");
    assert_eq!(recs[15].name, "Priya16");
    // the pool wraps by modulo sixteen
    assert_eq!(recs[16].name, "Aaliyah17");
    assert_eq!(recs[19].name, "Dimitri20");
}

#[test]
fn fresh_fields_have_the_expected_shape() {
    let recs = generate_records(2);
    for r in &recs {
        assert_eq!(r.uuid.len(), 36);
        assert!(r.uuid.contains('-'));
        assert!(r.created_at.contains('T'));
        assert!(!r.created_at.is_empty());
    }
    // tokens are fresh per record
    assert_ne!(recs[0].uuid, recs[1].uuid);
}

#[test]
fn zero_count_writes_a_well_formed_empty_array() {
    let (recs, text) = generate_users_document(0);
    assert_eq!(recs.len(), 0);
    assert_eq!(text, "[]");
    let v: serde_json::Value = serde_json::from_str(&text).unwrap();
    assert_eq!(v, serde_json::Value::Array(vec![]));
}

#[test]
fn encoder_emits_the_exact_document() {
    let recs = vec![record(1, "Aaliyah1")];
    let text = users_to_json(&recs);
    let expected = "[\n  {\n    \"id\": 1,\n    \"name\": \"Aaliyah1\",\n    \"email\": \"user1@example.com\",\n    \"created_at\": \"2024-01-01T00:00:00.000000Z\",\n    \"uuid\": \"00000000-0000-4000-8000-000000000000\"\n  }\n]";
    assert_eq!(text, expected);
}

#[test]
fn encoder_escapes_quotes_backslashes_and_line_breaks() {
    let recs = vec![record(2, "a\"b\\c\nd")];
    let text = users_to_json(&recs);
    assert!(text.contains("\"name\": \"a\\\"b\\\\c\\nd\""));
    // an independent parser reads the original value back
    let v: serde_json::Value = serde_json::from_str(&text).unwrap();
    assert_eq!(v[0]["name"], serde_json::Value::String("a\"b\\c\nd".to_string()));
}

#[test]
fn encoder_handles_non_ascii_names() {
    let recs = vec![record(3, "Zoë-测试3")];
    let text = users_to_json(&recs);
    let v: serde_json::Value = serde_json::from_str(&text).unwrap();
    assert_eq!(v[0]["name"], serde_json::Value::String("Zoë-测试3".to_string()));
    match validate_text(&text) {
        ValidationReport::UserList { count, sample, .. } => {
            assert_eq!(count, 1);
            assert_eq!(sample[0].0, "Zoë-测试3");
        }
        _ => panic!("a non-ascii name must survive the round trip"),
    }
}

#[test]
fn generated_documents_validate_as_typed_records() {
    let (recs, text) = generate_users_document(5);
    match validate_text(&text) {
        ValidationReport::UserList { count, sample, remaining } => {
            assert_eq!(count, 5);
            assert_eq!(remaining, 2);
            assert_eq!(sample.len(), 3);
            assert_eq!(sample[0].0, recs[0].name);
            assert_eq!(sample[0].1, recs[0].email);
            assert_eq!(sample[2].0, "Chen3");
            assert_eq!(sample[2].1, "user3@example.com");
        }
        _ => panic!("a generated document must validate as typed records"),
    }
}

#[test]
fn typed_decode_recovers_a_large_id() {
    let recs = vec![record(4294967295, "edge")];
    let text = users_to_json(&recs);
    let doc = demo_tools::validate::parse_document(&text).unwrap();
    let users = demo_tools::validate::decode_users(&doc).unwrap();
    assert_eq!(users.len(), 1);
    assert_eq!(users[0].id, 4294967295);
    assert_eq!(users[0].name, "edge");
    assert_eq!(users[0].created_at, recs[0].created_at);
}
