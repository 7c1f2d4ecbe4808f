use codex_light::api::{reset_at, UsageWindow};
use codex_light::logs::{codex_headers, reset_from_log};
use codex_light::model::human_duration;

#[test]
fn absolute_reset_timestamp_takes_precedence() {
    // The server reported 0% used, i.e. 100% remaining.
    let window = UsageWindow {
        remaining: 100,
        reset_at: Some(1_000),
        reset_after_seconds: Some(50),
    };
    assert_eq!(reset_at(&window, 100), Some(1_000));
}

#[test]
fn reset_after_is_used_when_timestamp_is_missing() {
    let window = UsageWindow {
        remaining: 100,
        reset_at: None,
        reset_after_seconds: Some(50),
    };
    assert_eq!(reset_at(&window, 100), Some(150));
}

#[test]
fn extracts_codex_headers_without_other_content() {
    let body = r#"headers={"x-codex-primary-used-percent":"27.4","authorization":"secret","x-codex-secondary-used-percent":"62","x-codex-primary-reset-after-seconds":"900"}"#;
    let headers = codex_headers(body);

    assert_eq!(headers.get("x-codex-primary-used-percent"), Some("27.4"));
    assert_eq!(headers.get("x-codex-secondary-used-percent"), Some("62"));
    assert!(!headers.contains_key("authorization"));
}

#[test]
fn stale_log_reset_is_not_presented_as_current() {
    assert_eq!(reset_from_log(1_000, Some(300), true), None);
    assert_eq!(reset_from_log(1_000, Some(300), false), Some(1_300));
}

#[test]
fn duration_uses_compact_day_hour_minute_format() {
    assert_eq!(human_duration(9_060), "2h 31m");
    assert_eq!(human_duration(309_600), "3d 14h 0m");
    assert_eq!(human_duration(-1), "0h 0m");
}
