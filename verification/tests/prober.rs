use demo_tools::probe::FetchOutcome;
use demo_tools::probe::HealthReport;
use demo_tools::probe::StepReport;
use demo_tools::probe::UsersProbeState;
use demo_tools::probe::health_report;
use demo_tools::probe::users_post_payload;
use demo_tools::probe::users_probe_on_get;
use demo_tools::probe::users_probe_on_post;
use demo_tools::probe::users_probe_start;
use demo_tools::serialize::generate_users_document;
use demo_tools::urls::normalize_health_url;
use demo_tools::urls::normalize_users_url;

#[test]
fn health_url_normalization_and_idempotence() {
    assert_eq!(
        normalize_health_url("http://localhost:8080/health"),
        "http://localhost:8080/health"
    );
    assert_eq!(
        normalize_health_url("http://localhost:8080"),
        "http://localhost:8080/api/health"
    );
    let once = normalize_health_url("http://example.org");
    assert_eq!(normalize_health_url(&once), once);
}

#[test]
fn users_url_normalization_and_idempotence() {
    assert_eq!(
        normalize_users_url("http://h/api/users?page=2"),
        "http://h/api/users?page=2"
    );
    assert_eq!(normalize_users_url("http://h"), "http://h/api/users");
    let once = normalize_users_url("http://h");
    assert_eq!(normalize_users_url(&once), once);
}

#[test]
fn unreachable_host_reports_transport_failure_and_a_hint() {
    let outcome = FetchOutcome::Transport("connection refused".to_string());
    match health_report("http://localhost:9", outcome) {
        HealthReport::Unreachable { error, hint } => {
            assert_eq!(error, "connection refused");
            assert_eq!(
                hint,
                "make sure the backend service is running at http://localhost:9"
            );
        }
        _ => panic!("a transport failure must be reported as unreachable"),
    }
}

#[test]
fn health_statuses_are_classified() {
    match health_report("b", FetchOutcome::Http { status: 200, body: Some("ok".to_string()) }) {
        HealthReport::Healthy { status, body } => {
            assert_eq!(status, 200);
            assert_eq!(body, "ok");
        }
        _ => panic!("a success status with a body is healthy"),
    }
    assert!(matches!(
        health_report("b", FetchOutcome::Http { status: 204, body: None }),
        HealthReport::BodyUnreadable { status: 204 }
    ));
    assert!(matches!(
        health_report("b", FetchOutcome::Http { status: 500, body: Some("x".to_string()) }),
        HealthReport::Unhealthy { status: 500 }
    ));
    assert!(matches!(
        health_report("b", FetchOutcome::Http { status: 301, body: None }),
        HealthReport::Unhealthy { status: 301 }
    ));
}

#[test]
fn post_is_still_owed_after_a_failed_get() {
    assert!(matches!(users_probe_start(), UsersProbeState::GetPending));
    let st = users_probe_on_get(FetchOutcome::Transport("refused".to_string()));
    let get = match st {
        UsersProbeState::PostPending { get } => get,
        _ => panic!("the POST sub-step must still be owed after a GET failure"),
    };
    assert!(matches!(get, StepReport::Transport(_)));
    let done = users_probe_on_post(
        get,
        FetchOutcome::Http { status: 201, body: Some("created".to_string()) },
    );
    match done {
        UsersProbeState::Complete { get, post } => {
            assert!(matches!(get, StepReport::Transport(_)));
            match post {
                StepReport::Body { status, text } => {
                    assert_eq!(status, 201);
                    assert_eq!(text, "created");
                }
                _ => panic!("the POST outcome must be reported on its own"),
            }
        }
        _ => panic!("both sub-steps must be reported"),
    }
}

#[test]
fn post_is_still_owed_after_a_bad_get_status() {
    let st = users_probe_on_get(FetchOutcome::Http { status: 404, body: None });
    match st {
        UsersProbeState::PostPending { get } => {
            assert!(matches!(get, StepReport::StatusFail(404)))
        }
        _ => panic!("the POST sub-step must still be owed after a bad status"),
    }
}

#[test]
fn get_with_a_record_body_reports_the_count() {
    let (recs, text) = generate_users_document(4);
    let st = users_probe_on_get(FetchOutcome::Http { status: 200, body: Some(text) });
    match st {
        UsersProbeState::PostPending { get } => match get {
            StepReport::Records { status, count, sample } => {
                assert_eq!(status, 200);
                assert_eq!(count, 4);
                assert_eq!(sample.len(), 3);
                assert_eq!(sample[1].0, recs[1].name);
                assert_eq!(sample[1].1, recs[1].email);
            }
            _ => panic!("a record body must be reported by its count"),
        },
        _ => panic!("the POST sub-step must still be owed"),
    }
}

#[test]
fn get_with_a_non_record_body_reports_the_text() {
    let st = users_probe_on_get(FetchOutcome::Http {
        status: 200,
        body: Some("{\"msg\":\"hi\"}".to_string()),
    });
    match st {
        UsersProbeState::PostPending { get } => match get {
            StepReport::Body { status, text } => {
                assert_eq!(status, 200);
                assert_eq!(text, "{\"msg\":\"hi\"}");
            }
            _ => panic!("a non-record body must be reported verbatim"),
        },
        _ => panic!("the POST sub-step must still be owed"),
    }
}

#[test]
fn post_payload_is_the_fixed_two_field_object() {
    let p = users_post_payload();
    assert_eq!(p, "{\"name\":\"Test User\",\"email\":\"test@example.com\"}");
    let v: serde_json::Value = serde_json::from_str(&p).unwrap();
    assert_eq!(v["name"], serde_json::Value::String("Test User".to_string()));
    assert_eq!(v["email"], serde_json::Value::String("test@example.com".to_string()));
    assert_eq!(v.as_object().unwrap().len(), 2);
}
