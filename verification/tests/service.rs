use k7s::apply::{apply_response, authorize, unauthorized_reply};
use k7s::response::ApiResponse;
use k7s::settings::Settings;
use k7s::trigger::{combine_outcomes, fallback_needed, CommandOutcome, RunResult};

fn outcome(success: bool, stdout: &str, stderr: &str) -> CommandOutcome {
    CommandOutcome {
        success,
        stdout: stdout.to_string(),
        stderr: stderr.to_string(),
    }
}

#[test]
fn authorize_exact_secret() {
    assert!(authorize(Some("s3cr3t"), "s3cr3t"));
}

#[test]
fn authorize_bearer_secret() {
    assert!(authorize(Some("Bearer s3cr3t"), "s3cr3t"));
}

#[test]
fn authorize_rejects_wrong_value() {
    assert!(!authorize(Some("wrong"), "s3cr3t"));
    assert!(!authorize(Some("Bearer wrong"), "s3cr3t"));
    assert!(!authorize(Some("bearer s3cr3t"), "s3cr3t"));
    assert!(!authorize(Some("Bearer  s3cr3t"), "s3cr3t"));
    assert!(!authorize(Some("Bearer s3cr3t "), "s3cr3t"));
    assert!(!authorize(Some(""), "s3cr3t"));
}

#[test]
fn authorize_rejects_missing_header() {
    assert!(!authorize(None, "s3cr3t"));
}

#[test]
fn authorize_secret_that_looks_like_bearer() {
    // A secret that itself starts with the scheme prefix is still accepted
    // both bare and behind the prefix.
    assert!(authorize(Some("Bearer x"), "Bearer x"));
    assert!(authorize(Some("Bearer Bearer x"), "Bearer x"));
    assert!(!authorize(Some("x"), "Bearer x"));
}

#[test]
fn authorize_empty_secret() {
    assert!(authorize(Some(""), ""));
    assert!(authorize(Some("Bearer "), ""));
    assert!(!authorize(Some("a"), ""));
}

#[test]
fn unauthorized_reply_is_plain_401() {
    let (status, body) = unauthorized_reply();
    assert_eq!(status, 401);
    assert_eq!(body, "unauthorized");
}

#[test]
fn primary_success_skips_fallback() {
    let mut fallback_invocations = 0;
    let primary: RunResult = Ok(outcome(true, "up to date\n", ""));
    let fallback = if fallback_needed(&primary) {
        fallback_invocations += 1;
        Some(Ok(outcome(true, "", "")))
    } else {
        None
    };
    let reduced = combine_outcomes(primary, fallback);
    assert_eq!(fallback_invocations, 0);
    assert!(reduced.success);
    assert_eq!(reduced.stdout, "up to date\n");
    assert_eq!(reduced.stderr, "");
}

#[test]
fn spawn_failure_then_fallback_success_is_200() {
    let primary: RunResult = Err("No such file or directory".to_string());
    assert!(fallback_needed(&primary));
    let fallback = Some(Ok(outcome(true, "Creating network\n", "")));
    let reduced = combine_outcomes(primary, fallback);
    let (status, body) = apply_response(reduced);
    assert_eq!(status, 200);
    assert_eq!(body.code, 0);
    assert_eq!(body.msg, "ok");
    assert_eq!(body.data.status, "success");
    assert_eq!(body.data.response, "Creating network\n");
}

#[test]
fn both_run_and_fail_is_500_with_joined_stderr() {
    let primary: RunResult = Ok(outcome(false, "", "primary boom"));
    assert!(fallback_needed(&primary));
    let fallback = Some(Ok(outcome(false, "", "fallback boom")));
    let reduced = combine_outcomes(primary, fallback);
    let (status, body) = apply_response(reduced);
    assert_eq!(status, 500);
    assert_eq!(body.code, -1);
    assert_eq!(body.msg, "apply_failed");
    assert_eq!(body.data.status, "failed");
    assert_eq!(body.data.response, "fallback boom\n(prev err) primary boom");
}

#[test]
fn primary_fails_fallback_spawn_failure_keeps_primary_outcome() {
    let primary: RunResult = Ok(outcome(false, "partial", "primary boom"));
    assert!(fallback_needed(&primary));
    let fallback = Some(Err("No such file or directory".to_string()));
    let reduced = combine_outcomes(primary, fallback);
    assert!(!reduced.success);
    assert_eq!(reduced.stdout, "partial");
    assert_eq!(reduced.stderr, "primary boom");
}

#[test]
fn both_spawn_failures_is_500_with_spawn_error() {
    let primary: RunResult = Err("no docker here".to_string());
    assert!(fallback_needed(&primary));
    let fallback = Some(Err("no docker-compose either".to_string()));
    let reduced = combine_outcomes(primary, fallback);
    assert_eq!(reduced.stdout, "");
    let (status, body) = apply_response(reduced);
    assert_eq!(status, 500);
    assert_eq!(body.code, -1);
    assert_eq!(body.data.response, "spawn error: no docker here");
}

#[test]
fn envelope_invariant_on_both_outcomes() {
    for success in [true, false] {
        let (status, body) = apply_response(outcome(success, "out", "err"));
        assert_eq!(body.code == 0, body.msg == "ok");
        assert_eq!(body.code == 0, status == 200);
    }
}

#[test]
fn end_to_end_bearer_success() {
    // Secret configured as "s3cr3t"; the request carries
    // "Authorization: Bearer s3cr3t"; the primary command succeeds with
    // stdout "Started\n".
    assert!(authorize(Some("Bearer s3cr3t"), "s3cr3t"));
    let primary: RunResult = Ok(outcome(true, "Started\n", ""));
    assert!(!fallback_needed(&primary));
    let reduced = combine_outcomes(primary, None);
    let (status, body) = apply_response(reduced);
    assert_eq!(status, 200);

    // The serialized body, fields in declaration order.
    let mut data = serde_json::Map::new();
    data.insert(
        "status".to_string(),
        serde_json::Value::String(body.data.status),
    );
    data.insert(
        "response".to_string(),
        serde_json::Value::String(body.data.response),
    );
    let mut envelope = serde_json::Map::new();
    envelope.insert(
        "code".to_string(),
        serde_json::Value::Number(serde_json::Number::from(body.code)),
    );
    envelope.insert("msg".to_string(), serde_json::Value::String(body.msg));
    envelope.insert("data".to_string(), serde_json::Value::Object(data));
    let rendered = serde_json::to_string(&serde_json::Value::Object(envelope)).unwrap();
    assert_eq!(
        rendered,
        "{\"code\":0,\"msg\":\"ok\",\"data\":{\"status\":\"success\",\"response\":\"Started\\n\"}}"
    );
}

#[test]
fn envelope_constructors() {
    let ok: ApiResponse<u32> = ApiResponse::success(7);
    assert_eq!(ok.code, 0);
    assert_eq!(ok.msg, "ok");
    assert_eq!(ok.data, 7);
    let err: ApiResponse<u32> = ApiResponse::error("apply_failed", 9);
    assert_eq!(err.code, -1);
    assert_eq!(err.msg, "apply_failed");
    assert_eq!(err.data, 9);
}

#[test]
fn default_settings_values() {
    let s = Settings::default();
    assert_eq!(s.server.host, "0.0.0.0");
    assert_eq!(s.server.port, 8080);
    assert_eq!(s.auth.password, "changeme");
}

#[test]
fn config_file_candidates_in_discovery_order() {
    let c = Settings::config_file_candidates();
    assert_eq!(c, vec!["k7s", "k7s.yaml", "config/k7s", "config/k7s.yaml"]);
}

#[test]
fn any_config_file_exists_flags() {
    assert!(!Settings::any_config_file_exists(&vec![
        false, false, false, false
    ]));
    assert!(Settings::any_config_file_exists(&vec![
        false, false, true, false
    ]));
    assert!(Settings::any_config_file_exists(&vec![true, true, true, true]));
}

#[test]
fn example_config_contents() {
    let text = Settings::example_config();
    assert_eq!(
        text,
        "# k7s example configuration\nserver:\n  host: \"127.0.0.1\"\n  port: 18080\nauth:\n  password: \"changeme\"  # please change to a strong password\n"
    );
}
