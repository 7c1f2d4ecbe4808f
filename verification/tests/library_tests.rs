use std::path::PathBuf;

use codex_light::api::{
    api_outcome, check_status, sends_account_id, usage_from_rate_limit, usage_from_reply,
    ApiExchange, RateLimit, UsageWindow,
};
use codex_light::auth::{resolve_auth, AuthFile};
use codex_light::error::UsageError;
use codex_light::logs::{
    codex_headers, complete_captures, is_stale, log_fields, row_step, usage_from_log_reading,
    LogReading, LogSearch, RowStep,
};
use codex_light::model::{human_duration, CodexUsage};
use codex_light::report::{usage_report, window_report};
use codex_light::service::{ApiStep, UsageService};
use codex_light::text::{
    decimal_string, is_blank, is_white_space_char, saturating_add_i64, saturating_sub_i64,
    signed_decimal_string,
};
use codex_light::tray::{tray_color, tray_rgba, tray_title, tray_tooltip};

fn sample_usage(source: &str, stale: bool) -> CodexUsage {
    CodexUsage {
        five_hour_remaining: 73,
        weekly_remaining: 38,
        five_hour_reset_at: Some(1_900),
        weekly_reset_at: None,
        updated_at: 1_000,
        source: source.to_string(),
        stale,
    }
}

#[test]
fn decimal_formatting_matches_std() {
    for n in [0u64, 7, 10, 99, 100, 12_345, u64::MAX] {
        assert_eq!(decimal_string(n), n.to_string());
    }
    for n in [0i64, -1, -42, 1_700_000_000, i64::MIN, i64::MAX] {
        assert_eq!(signed_decimal_string(n), n.to_string());
    }
}

#[test]
fn saturating_arithmetic_matches_std() {
    let cases = [(0i64, 0i64), (5, -7), (i64::MAX, 1), (i64::MIN, -1), (i64::MIN, i64::MAX), (-3, i64::MIN)];
    for (a, b) in cases {
        assert_eq!(saturating_add_i64(a, b), a.saturating_add(b));
        assert_eq!(saturating_sub_i64(a, b), a.saturating_sub(b));
    }
}

#[test]
fn blank_text_is_only_white_space() {
    assert!(is_blank(""));
    assert!(is_blank(" \t\r\n"));
    assert!(is_blank("\u{3000}\u{a0}\u{2028}"));
    assert!(!is_blank(" a "));
    assert!(!is_blank("token"));
    for s in ["", " ", "x", "\u{85}", "\u{200b}", "\u{1680}y"] {
        assert_eq!(is_blank(s), s.trim().is_empty());
    }
}

#[test]
fn user_messages_depend_on_the_kind_of_error_only() {
    assert_eq!(UsageError::CodexNotDetected("/home/a/.codex".into()).user_message(), "Codex not detected");
    assert_eq!(UsageError::NotLoggedIn.user_message(), "Codex is not logged in");
    assert_eq!(UsageError::AuthRead.user_message(), "Codex is not logged in");
    assert_eq!(UsageError::AuthFormat.user_message(), "Codex is not logged in");
    assert_eq!(UsageError::SessionExpired.user_message(), "Codex session expired");
    for e in [
        UsageError::HttpStatus(500),
        UsageError::Network("secret-token".into()),
        UsageError::ResponseFormat,
        UsageError::LogDataUnavailable,
        UsageError::LogRead,
        UsageError::ProvidersFailed { api: "a".into(), logs: "b".into() },
    ] {
        assert_eq!(e.user_message(), "Unable to refresh Codex usage");
    }
}

#[test]
fn descriptions_carry_the_error_data() {
    assert_eq!(
        UsageError::CodexNotDetected("/home/a/.codex".into()).description(),
        "Codex was not detected at /home/a/.codex"
    );
    assert_eq!(UsageError::NotLoggedIn.description(), "Codex is not logged in");
    assert_eq!(UsageError::AuthRead.description(), "unable to read Codex authentication");
    assert_eq!(
        UsageError::AuthFormat.description(),
        "Codex authentication data has an unsupported format"
    );
    assert_eq!(UsageError::SessionExpired.description(), "Codex session expired");
    assert_eq!(UsageError::HttpStatus(503).description(), "usage request returned HTTP 503");
    assert_eq!(
        UsageError::Network("timed out".into()).description(),
        "usage request failed: timed out"
    );
    assert_eq!(UsageError::ResponseFormat.description(), "usage response has an unsupported format");
    assert_eq!(
        UsageError::LogDataUnavailable.description(),
        "no usable Codex quota entry was found in local logs"
    );
    assert_eq!(UsageError::LogRead.description(), "unable to read Codex logs");
    assert_eq!(
        UsageError::ProvidersFailed { api: "x".into(), logs: "y".into() }.description(),
        "unable to refresh usage; API: x; logs: y"
    );
}

#[test]
fn http_status_classification() {
    assert_eq!(check_status(200), Ok(()));
    assert_eq!(check_status(204), Ok(()));
    assert_eq!(check_status(299), Ok(()));
    assert_eq!(check_status(401), Err(UsageError::SessionExpired));
    assert_eq!(check_status(403), Err(UsageError::SessionExpired));
    assert_eq!(check_status(404), Err(UsageError::HttpStatus(404)));
    assert_eq!(check_status(500), Err(UsageError::HttpStatus(500)));
    assert_eq!(check_status(199), Err(UsageError::HttpStatus(199)));
    assert_eq!(check_status(300), Err(UsageError::HttpStatus(300)));
}

#[test]
fn account_id_is_sent_only_when_not_blank() {
    assert!(!sends_account_id(""));
    assert!(!sends_account_id("   "));
    assert!(sends_account_id("account"));
    assert!(sends_account_id(" account "));
}

#[test]
fn api_usage_is_read_from_rate_limits() {
    let rate_limit = RateLimit {
        primary_window: UsageWindow { remaining: 73, reset_at: None, reset_after_seconds: Some(900) },
        secondary_window: UsageWindow { remaining: 38, reset_at: Some(5_000), reset_after_seconds: None },
    };
    let usage = usage_from_rate_limit(&rate_limit, 1_000);
    assert_eq!(
        usage,
        CodexUsage {
            five_hour_remaining: 73,
            weekly_remaining: 38,
            five_hour_reset_at: Some(1_900),
            weekly_reset_at: Some(5_000),
            updated_at: 1_000,
            source: "api".into(),
            stale: false,
        }
    );
    assert_eq!(usage_from_reply(Some(rate_limit), 1_000), Ok(usage));
    assert_eq!(usage_from_reply(None, 1_000), Err(UsageError::ResponseFormat));
    let far = UsageWindow { remaining: 0, reset_at: None, reset_after_seconds: Some(i64::MAX) };
    assert_eq!(codex_light::api::reset_at(&far, 10), Some(i64::MAX));
    let none = UsageWindow { remaining: 0, reset_at: None, reset_after_seconds: None };
    assert_eq!(codex_light::api::reset_at(&none, 10), None);
}

#[test]
fn auth_file_outcomes() {
    assert_eq!(resolve_auth(AuthFile::Missing).err(), Some(UsageError::NotLoggedIn));
    assert_eq!(resolve_auth(AuthFile::Unreadable).err(), Some(UsageError::AuthRead));
    assert_eq!(resolve_auth(AuthFile::Malformed).err(), Some(UsageError::AuthFormat));
    let blank = AuthFile::Tokens { access_token: "  \n".into(), account_id: "acct".into() };
    assert_eq!(resolve_auth(blank).err(), Some(UsageError::NotLoggedIn));
    let good = AuthFile::Tokens { access_token: "secret".into(), account_id: String::new() };
    let auth = resolve_auth(good).ok().expect("credentials");
    assert_eq!(auth.access_token, "secret");
    assert_eq!(auth.account_id, "");
}

#[test]
fn header_lookup_takes_the_last_value() {
    let body = r#"{"x-codex-primary-used-percent" : "10", "x-codex-primary-used-percent":"12.5"}"#;
    let headers = codex_headers(body);
    assert_eq!(headers.get("x-codex-primary-used-percent"), Some("12.5"));
    assert_eq!(headers.get("x-codex-secondary-used-percent"), None);
    assert!(!headers.contains_key("x-codex-"));
    let nothing = codex_headers("no headers here");
    assert!(!nothing.contains_key("x-codex-primary-used-percent"));
}

#[test]
fn log_fields_need_both_used_percentages() {
    let partial = codex_headers(r#""x-codex-primary-used-percent":"5""#);
    assert!(log_fields(&partial).is_none());
    let body = r#""x-codex-primary-used-percent":"5", "x-codex-secondary-used-percent":"7", "x-codex-secondary-reset-after-seconds":"60""#;
    let fields = log_fields(&codex_headers(body)).expect("both percentages");
    assert_eq!(fields.primary_used, "5");
    assert_eq!(fields.secondary_used, "7");
    assert_eq!(fields.primary_reset_after, None);
    assert_eq!(fields.secondary_reset_after.as_deref(), Some("60"));
}

#[test]
fn staleness_starts_after_half_an_hour() {
    assert!(!is_stale(1_000, 2_800));
    assert!(is_stale(1_000, 2_801));
    assert!(!is_stale(1_000, 0));
    assert!(is_stale(i64::MIN, i64::MAX));
}

#[test]
fn log_usage_hides_resets_of_stale_entries() {
    let reading = LogReading {
        primary_remaining: 73,
        secondary_remaining: 38,
        primary_reset_after: Some(900),
        secondary_reset_after: None,
    };
    let fresh = usage_from_log_reading(1_000, &reading, 1_100);
    assert_eq!(
        fresh,
        CodexUsage {
            five_hour_remaining: 73,
            weekly_remaining: 38,
            five_hour_reset_at: Some(1_900),
            weekly_reset_at: None,
            updated_at: 1_000,
            source: "logs".into(),
            stale: false,
        }
    );
    let old = usage_from_log_reading(1_000, &reading, 10_000);
    assert!(old.stale);
    assert_eq!(old.five_hour_reset_at, None);
    assert_eq!(old.weekly_reset_at, None);
    assert_eq!(old.updated_at, 1_000);
}

#[test]
fn log_search_reports_the_first_usage_or_why_there_is_none() {
    let mut search = LogSearch::new();
    assert_eq!(search.observe(Ok(None)), None);
    assert_eq!(search.finish(), UsageError::LogDataUnavailable);
    assert_eq!(search.observe(Err(UsageError::LogRead)), None);
    assert_eq!(search.finish(), UsageError::LogRead);
    let usage = sample_usage("logs", false);
    assert_eq!(search.observe(Ok(Some(usage.clone()))), Some(usage));
}

#[test]
fn refresh_falls_back_to_logs() {
    let usage = sample_usage("api", false);
    assert!(matches!(UsageService::after_api(Ok(usage.clone())), ApiStep::Done(u) if u == usage));
    assert!(matches!(
        UsageService::after_api(Err(UsageError::HttpStatus(500))),
        ApiStep::ConsultLogs(UsageError::HttpStatus(500))
    ));
    let logged = sample_usage("logs", true);
    assert_eq!(UsageService::after_logs(UsageError::SessionExpired, Ok(logged.clone())), Ok(logged));
    let reported = || [UsageError::NotLoggedIn, UsageError::AuthRead, UsageError::AuthFormat, UsageError::SessionExpired];
    for (e, expected) in reported().into_iter().zip(reported()) {
        assert_eq!(UsageService::after_logs(e, Err(UsageError::LogRead)), Err(expected));
    }
    assert_eq!(
        UsageService::after_logs(UsageError::HttpStatus(502), Err(UsageError::LogDataUnavailable)),
        Err(UsageError::ProvidersFailed {
            api: "usage request returned HTTP 502".into(),
            logs: "no usable Codex quota entry was found in local logs".into(),
        })
    );
    let service = UsageService::new(PathBuf::from("/home/a/.codex"));
    assert_eq!(service.codex_home(), &PathBuf::from("/home/a/.codex"));
}

#[test]
fn tray_light_colours() {
    assert_eq!(tray_color(Some(100)), (36, 184, 112));
    assert_eq!(tray_color(Some(50)), (36, 184, 112));
    assert_eq!(tray_color(Some(49)), (224, 157, 27));
    assert_eq!(tray_color(Some(20)), (224, 157, 27));
    assert_eq!(tray_color(Some(19)), (228, 76, 85));
    assert_eq!(tray_color(Some(0)), (228, 76, 85));
    assert_eq!(tray_color(None), (139, 153, 167));
    assert_eq!(tray_title(73), "73%");
    assert_eq!(tray_tooltip(5), "CodexLight · 5% remaining");
}

#[test]
fn tray_image_is_the_disc_of_the_float_formula() {
    for remaining in [None, Some(10u8), Some(30), Some(90)] {
        let (r, g, b) = tray_color(remaining);
        let image = tray_rgba(remaining);
        assert_eq!(image.len(), 32 * 32 * 4);
        for y in 0..32usize {
            for x in 0..32usize {
                let distance = ((x as f32 - 15.5f32).powi(2) + (y as f32 - 15.5f32).powi(2)).sqrt();
                let index = (y * 32 + x) * 4;
                let expected = if distance <= 11.5f32 { [r, g, b, 255] } else { [0, 0, 0, 0] };
                assert_eq!(&image[index..index + 4], &expected[..]);
            }
        }
    }
}

#[test]
fn report_text_matches_the_program_output() {
    assert_eq!(
        window_report("5h", 73, Some(10_060), 1_000),
        "5h: 73% remaining\nReset in 2h 31m\n\n"
    );
    assert_eq!(window_report("Weekly", 0, None, 1_000), "Weekly: 0% remaining\nReset time unavailable\n\n");
    assert_eq!(window_report("5h", 1, Some(0), 1_000), "5h: 1% remaining\nReset in 0h 0m\n\n");
    let report = usage_report(&sample_usage("logs", true), 1_000);
    assert_eq!(
        report,
        "Codex detected\n\n5h: 73% remaining\nReset in 0h 15m\n\nWeekly: 38% remaining\nReset time unavailable\n\nSource: logs\nLast updated: 1000\nStatus: last known usage (stale)\n"
    );
    let fresh = usage_report(&sample_usage("api", false), 1_000);
    assert!(fresh.ends_with("Source: api\nLast updated: 1000\n"));
}

#[test]
fn durations_around_unit_boundaries() {
    assert_eq!(human_duration(0), "0h 0m");
    assert_eq!(human_duration(59), "0h 0m");
    assert_eq!(human_duration(60), "0h 1m");
    assert_eq!(human_duration(86_399), "23h 59m");
    assert_eq!(human_duration(86_400), "1d 0h 0m");
    assert_eq!(human_duration(i64::MIN), "0h 0m");
    assert_eq!(human_duration(i64::MAX), "106751991167300d 15h 30m");
}

#[test]
fn white_space_matches_std() {
    for c in ['\t', '\n', '\u{b}', '\u{c}', '\r', ' ', '\u{85}', '\u{a0}', '\u{1680}', '\u{2000}',
        '\u{200a}', '\u{200b}', '\u{2028}', '\u{2029}', '\u{202f}', '\u{205f}', '\u{3000}', 'a', '\u{feff}', '\u{180e}']
    {
        assert_eq!(is_white_space_char(c), c.is_whitespace(), "{:?}", c);
    }
    for n in 0u32..0x4000 {
        if let Some(c) = char::from_u32(n) {
            assert_eq!(is_white_space_char(c), c.is_whitespace(), "{:?}", c);
        }
    }
}

#[test]
fn captures_become_header_entries() {
    // The capture groups that the header pattern yields on the body of the
    // header-extraction scenario (extracts_codex_headers_without_other_content).
    let pairs = vec![
        (Some("x-codex-primary-used-percent".to_string()), Some("27.4".to_string())),
        (Some("x-codex-secondary-used-percent".to_string()), Some("62".to_string())),
        (Some("x-codex-primary-reset-after-seconds".to_string()), Some("900".to_string())),
    ];
    let entries = complete_captures(&pairs);
    assert_eq!(
        entries,
        vec![
            ("x-codex-primary-used-percent".to_string(), "27.4".to_string()),
            ("x-codex-secondary-used-percent".to_string(), "62".to_string()),
            ("x-codex-primary-reset-after-seconds".to_string(), "900".to_string()),
        ]
    );
    let partial = vec![
        (Some("a".to_string()), None),
        (None, Some("b".to_string())),
        (Some("c".to_string()), Some(String::new())),
    ];
    assert_eq!(complete_captures(&partial), vec![("c".to_string(), String::new())]);
}

#[test]
fn first_decisive_row_answers() {
    assert!(matches!(row_step(Ok(None)), RowStep::Next));
    assert!(matches!(row_step(Err(())), RowStep::Stop(Err(UsageError::LogRead))));
    let usage = sample_usage("logs", false);
    assert!(matches!(row_step(Ok(Some(usage.clone()))), RowStep::Stop(Ok(Some(u))) if u == usage));
}

#[test]
fn durations_read_the_same_only_within_a_minute() {
    assert_eq!(human_duration(60), human_duration(119));
    assert_ne!(human_duration(119), human_duration(120));
    assert_eq!(human_duration(-500), human_duration(59));
    assert_ne!(human_duration(86_399), human_duration(86_400));
    assert_ne!(human_duration(3_600 * 10), human_duration(86_400 + 60));
}

#[test]
fn api_exchange_outcomes() {
    assert_eq!(
        api_outcome(ApiExchange::ClientFailed("no tls".into()), 5),
        Err(UsageError::Network("no tls".into()))
    );
    assert_eq!(
        api_outcome(ApiExchange::SendFailed("timed out".into()), 5),
        Err(UsageError::Network("timed out".into()))
    );
    assert_eq!(api_outcome(ApiExchange::Replied(401, None), 5), Err(UsageError::SessionExpired));
    assert_eq!(api_outcome(ApiExchange::Replied(403, None), 5), Err(UsageError::SessionExpired));
    assert_eq!(api_outcome(ApiExchange::Replied(500, None), 5), Err(UsageError::HttpStatus(500)));
    assert_eq!(api_outcome(ApiExchange::Replied(200, None), 5), Err(UsageError::ResponseFormat));
    let rate_limit = RateLimit {
        primary_window: UsageWindow { remaining: 90, reset_at: Some(100), reset_after_seconds: None },
        secondary_window: UsageWindow { remaining: 40, reset_at: None, reset_after_seconds: Some(10) },
    };
    let usage = api_outcome(ApiExchange::Replied(200, Some(rate_limit)), 5).ok().expect("usage");
    assert_eq!(usage.five_hour_reset_at, Some(100));
    assert_eq!(usage.weekly_reset_at, Some(15));
    assert_eq!(usage.source, "api");
    assert!(!usage.stale);
}

#[test]
fn refresh_outcome_is_the_same_for_any_access_token() {
    let run = |token: &str| {
        let auth = resolve_auth(AuthFile::Tokens { access_token: token.into(), account_id: "acct".into() });
        let api = match auth {
            Ok(_) => api_outcome(ApiExchange::Replied(502, None), 5),
            Err(e) => Err(e),
        };
        match UsageService::after_api(api) {
            ApiStep::Done(u) => Ok(u),
            ApiStep::ConsultLogs(e) => UsageService::after_logs(e, Err(UsageError::LogRead)),
        }
    };
    assert_eq!(run("first-token"), run("second-token"));
    assert_eq!(
        run("first-token").err().map(|e| e.description()),
        Some("unable to refresh usage; API: usage request returned HTTP 502; logs: unable to read Codex logs".to_string())
    );
}
