use gy::changes::{command_result, editor_command, launch_failure};
use gy::confirm::{choice_from_answer, eq_ignoring_case, parse_choice, Choice};
use gy::credential::{
    config_record, on_key_checked, on_key_entered, resolve_credential, stored_credential,
    CredentialSource, KeyStep,
};
use gy::generation::{
    decimal_text, interpret_key_check, interpret_reply, GenerationRequest, ReplyError,
    SYSTEM_PROMPT,
};
use gy::text::is_blank;

fn some(s: &str) -> Option<String> {
    Some(s.to_string())
}

#[test]
fn environment_wins_over_config() {
    let r = resolve_credential(some("env-key"), some("stored-key"));
    assert!(matches!(r, CredentialSource::Environment(k) if k == "env-key"));
}

#[test]
fn config_used_when_environment_empty_or_absent() {
    let r = resolve_credential(some(""), some("stored-key"));
    assert!(matches!(r, CredentialSource::Config(k) if k == "stored-key"));
    let r = resolve_credential(None, some("stored-key"));
    assert!(matches!(r, CredentialSource::Config(k) if k == "stored-key"));
}

#[test]
fn prompt_only_when_nothing_usable() {
    assert!(matches!(resolve_credential(None, None), CredentialSource::Prompt));
    assert!(matches!(resolve_credential(some(""), some("")), CredentialSource::Prompt));
    assert!(matches!(resolve_credential(some(""), None), CredentialSource::Prompt));
}

#[test]
fn stored_credential_read_from_record() {
    assert_eq!(stored_credential(r#"{"anthropic_api_key":"sk-1"}"#), some("sk-1"));
    assert_eq!(stored_credential(r#"{"other":"x"}"#), None);
    assert_eq!(stored_credential(r#"{"anthropic_api_key":5}"#), None);
    assert_eq!(stored_credential("not json"), None);
}

#[test]
fn config_record_round_trips() {
    let rec = config_record("sk-\"quoted\"\n");
    assert_eq!(rec, "{\n  \"anthropic_api_key\": \"sk-\\\"quoted\\\"\\n\"\n}");
    assert_eq!(stored_credential(&rec), some("sk-\"quoted\"\n"));
    assert_eq!(config_record("k"), "{\n  \"anthropic_api_key\": \"k\"\n}");
}

#[test]
fn key_prompt_steps() {
    assert!(matches!(on_key_entered("  \n"), KeyStep::Reprompt(n) if n == "API key cannot be empty. Please try again."));
    assert!(matches!(on_key_entered("  sk-abc \n"), KeyStep::Check(k) if k == "sk-abc"));
    assert!(matches!(on_key_checked("sk".to_string(), Ok(())), KeyStep::Accept(k) if k == "sk"));
    assert!(matches!(on_key_checked("sk".to_string(), Err("invalid x-api-key".to_string())),
        KeyStep::Reprompt(n) if n == "Error: invalid x-api-key"));
}

#[test]
fn key_check_verdicts() {
    assert_eq!(interpret_key_check(200, "200 OK", "{}"), Ok(()));
    assert_eq!(
        interpret_key_check(401, "401 Unauthorized", r#"{"type":"error","error":{"type":"authentication_error","message":"invalid x-api-key"}}"#),
        Err("invalid x-api-key".to_string())
    );
    assert_eq!(
        interpret_key_check(401, "401 Unauthorized", "<html>"),
        Err("API error (401 Unauthorized)".to_string())
    );
}

#[test]
fn key_check_request_body_exact() {
    let r = GenerationRequest::key_check("m-small");
    assert_eq!(r.max_tokens, 10);
    assert_eq!(
        r.body(),
        r#"{"model":"m-small","max_tokens":10,"messages":[{"role":"user","content":"test"}],"system":"Reply with ok"}"#
    );
}

#[test]
fn commit_request_body_escapes_diff() {
    let r = GenerationRequest::commit_message("m-1", "+a \"b\"\n-c\\");
    assert_eq!(r.max_tokens, 256);
    assert_eq!(r.system, SYSTEM_PROMPT);
    let body = r.body();
    let expected = format!(
        "{{\"model\":\"m-1\",\"max_tokens\":256,\"messages\":[{{\"role\":\"user\",\"content\":\"+a \\\"b\\\"\\n-c\\\\\"}}],\"system\":\"{}\"}}",
        SYSTEM_PROMPT
    );
    assert_eq!(body, expected);
    let v: serde_json::Value = serde_json::from_str(&body).unwrap();
    assert_eq!(v["messages"][0]["content"].as_str(), Some("+a \"b\"\n-c\\"));
}

#[test]
fn system_prompt_names_all_types() {
    for t in ["feat", "fix", "refactor", "docs", "style", "test", "chore", "perf", "ci", "build"] {
        assert!(SYSTEM_PROMPT.contains(t));
    }
}

#[test]
fn decimal_rendering() {
    assert_eq!(decimal_text(0), "0");
    assert_eq!(decimal_text(7), "7");
    assert_eq!(decimal_text(10), "10");
    assert_eq!(decimal_text(256), "256");
    assert_eq!(decimal_text(u32::MAX), "4294967295");
}

#[test]
fn reply_success_is_trimmed_first_text() {
    let body = r#"{"content":[{"type":"text","text":"  feat: add foo\n"},{"type":"text","text":"other"}]}"#;
    assert!(matches!(interpret_reply(200, "200 OK", body), Ok(m) if m == "feat: add foo"));
}

#[test]
fn reply_empty_content() {
    let r = interpret_reply(200, "200 OK", r#"{"content":[]}"#);
    let e = r.unwrap_err();
    assert!(matches!(e, ReplyError::Empty));
    assert_eq!(e.describe(), "Empty response from API");
}

#[test]
fn reply_unparseable_success_body() {
    for body in ["not json", r#"{"content":"x"}"#, r#"{"content":[{"type":"text"}]}"#] {
        let e = interpret_reply(200, "200 OK", body).unwrap_err();
        assert!(matches!(e, ReplyError::Unparseable));
        assert_eq!(e.describe(), "Failed to parse response");
    }
}

#[test]
fn reply_refusal_without_envelope_keeps_status_and_body() {
    let e = interpret_reply(500, "500 Internal Server Error", "oops").unwrap_err();
    assert!(matches!(&e, ReplyError::Status { status, body } if status == "500 Internal Server Error" && body == "oops"));
    assert_eq!(e.describe(), "API error (500 Internal Server Error): oops");
}

#[test]
fn reply_refusal_with_envelope() {
    let e = interpret_reply(529, "529", r#"{"type":"error","error":{"type":"overloaded_error","message":"Overloaded"}}"#).unwrap_err();
    assert!(matches!(&e, ReplyError::Api(m) if m == "Overloaded"));
    assert_eq!(e.describe(), "API error: Overloaded");
}

#[test]
fn answers_ignore_case_and_accept_abbreviations() {
    for a in ["y", "Y", "yes", "YES", "Yes", " yEs \n"] {
        assert_eq!(parse_choice(a), Choice::Accept);
    }
    for a in ["e", "E", "edit", "EDIT", "\tEdit\n"] {
        assert_eq!(parse_choice(a), Choice::Edit);
    }
    for a in ["n", "N", "no", "NO", "", "yes please", "x", "é"] {
        assert_eq!(parse_choice(a), Choice::Reject);
    }
    assert_eq!(choice_from_answer(" y"), Choice::Reject);
}

#[test]
fn ascii_case_comparison() {
    assert!(eq_ignoring_case("EdIt", "edit"));
    assert!(!eq_ignoring_case("edits", "edit"));
    assert!(!eq_ignoring_case("ÉDIT", "édit"));
    assert!(eq_ignoring_case("", ""));
}

#[test]
fn blank_detection() {
    assert!(is_blank(""));
    assert!(is_blank(" \n\t\r "));
    assert!(!is_blank(" +x "));
}

#[test]
fn command_results_and_editor() {
    assert_eq!(command_result(true, "out".to_string(), "err".to_string()), Ok("out".to_string()));
    assert_eq!(command_result(false, "out".to_string(), "err".to_string()), Err("err".to_string()));
    assert_eq!(launch_failure("not found"), "Failed to run git: not found");
    assert_eq!(editor_command(some("nano")), "nano");
    assert_eq!(editor_command(some("")), "");
    assert_eq!(editor_command(None), "vi");
}

#[test]
fn control_characters_are_escaped_in_bodies() {
    let r = GenerationRequest::commit_message("m", "\u{1}\u{1f}\u{8}\u{c}\r\t\u{7f}é");
    let body = r.body();
    assert!(body.contains(r#""content":"\u0001\u001f\b\f\r\t"#));
    assert!(body.contains("\u{7f}é\"}]"));
}

#[test]
fn unicode_white_space_is_blank() {
    assert!(is_blank("\u{3000}\u{a0}\u{2028}\u{85}"));
    assert!(!is_blank("\u{200b}"));
}
