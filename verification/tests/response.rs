use greenlight_backend::handshake::OrchestratorError;
use greenlight_backend::json::build_envelope;
use greenlight_backend::json::u64_to_dec;
use greenlight_backend::response::health_reply;
use greenlight_backend::response::offer_failure_reply;
use greenlight_backend::response::offer_success_reply;

#[test]
fn success_reply_has_the_exact_body() {
    let r = offer_success_reply("lno1qcp4256ypq");
    assert_eq!(r.status, 200);
    assert_eq!(
        r.body,
        "{\"success\":true,\"message\":\"BOLT 12 offer created successfully\",\
         \"data\":{\"offer\":\"lno1qcp4256ypq\"}}"
    );
}

#[test]
fn success_reply_is_valid_json_with_the_offer() {
    let r = offer_success_reply("lno1qcp4256ypq");
    let v: serde_json::Value = serde_json::from_str(&r.body).expect("body parses as JSON");
    assert_eq!(v["success"], serde_json::Value::Bool(true));
    assert_eq!(v["data"]["offer"], serde_json::Value::String("lno1qcp4256ypq".to_string()));
}

#[test]
fn awkward_offer_characters_survive_the_rendering() {
    let offer = "a\"b\\c\nd\te\u{1}f";
    let r = offer_success_reply(offer);
    let v: serde_json::Value = serde_json::from_str(&r.body).expect("body parses as JSON");
    assert_eq!(v["data"]["offer"], serde_json::Value::String(offer.to_string()));
}

#[test]
fn every_failure_is_a_500_with_no_data() {
    let kinds = [
        OrchestratorError::CredentialMissing,
        OrchestratorError::SchedulerUnreachable,
        OrchestratorError::SignerConstructionFailed,
        OrchestratorError::RegistrationFailed,
        OrchestratorError::AuthenticationFailed,
        OrchestratorError::NodeHandleUnavailable,
        OrchestratorError::OfferSubmissionFailed,
    ];
    for e in kinds {
        let r = offer_failure_reply(e, "remote said no");
        assert_eq!(r.status, 500);
        let v: serde_json::Value = serde_json::from_str(&r.body).expect("body parses as JSON");
        assert_eq!(v["success"], serde_json::Value::Bool(false));
        assert_eq!(v["data"], serde_json::Value::Null);
    }
}

#[test]
fn failure_reply_carries_the_step_message() {
    let r = offer_failure_reply(OrchestratorError::SchedulerUnreachable, "connect timed out");
    assert_eq!(
        r.body,
        "{\"success\":false,\"message\":\"Failed to create scheduler: connect timed out\",\
         \"data\":null}"
    );
}

#[test]
fn health_is_200_with_flag_false_when_nothing_loads() {
    let r = health_reply(None, None, None, None, 1_700_000_000);
    assert_eq!(r.status, 200);
    let v: serde_json::Value = serde_json::from_str(&r.body).expect("body parses as JSON");
    assert_eq!(v["success"], serde_json::Value::Bool(true));
    assert_eq!(
        v["data"]["config"]["certificates_loaded"],
        serde_json::Value::Bool(false)
    );
    assert_eq!(
        v["data"]["timestamp"],
        serde_json::Value::Number(serde_json::Number::from(1_700_000_000u64))
    );
}

#[test]
fn health_flag_is_true_exactly_when_loading_succeeds() {
    let r = health_reply(
        Some(b"Y2VydA==".to_vec()),
        None,
        None,
        Some(b"key".to_vec()),
        42,
    );
    assert_eq!(r.status, 200);
    let v: serde_json::Value = serde_json::from_str(&r.body).expect("body parses as JSON");
    assert_eq!(
        v["data"]["config"]["certificates_loaded"],
        serde_json::Value::Bool(true)
    );
    assert_eq!(v["data"]["status"], serde_json::Value::String("ok".to_string()));
}

#[test]
fn health_body_is_rendered_exactly() {
    let r = health_reply(None, None, None, None, 42);
    assert_eq!(
        r.body,
        "{\"success\":true,\"message\":\"Greenlight backend API is healthy\",\
         \"data\":{\"config\":{\"certificates_loaded\":false},\"status\":\"ok\",\
         \"timestamp\":42}}"
    );
}

#[test]
fn decimal_rendering_covers_the_edges() {
    assert_eq!(u64_to_dec(0), "0");
    assert_eq!(u64_to_dec(10), "10");
    assert_eq!(u64_to_dec(1_700_000_000), "1700000000");
    assert_eq!(u64_to_dec(u64::MAX), "18446744073709551615");
}

#[test]
fn envelope_message_is_escaped() {
    let body = build_envelope(false, "a \"quoted\" \\ line\n", None);
    let v: serde_json::Value = serde_json::from_str(&body).expect("body parses as JSON");
    assert_eq!(
        v["message"],
        serde_json::Value::String("a \"quoted\" \\ line\n".to_string())
    );
}
