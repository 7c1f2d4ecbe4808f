use vstd::prelude::*;

use crate::model::{duration_text, human_duration, lemma_negative_duration_is_zero, CodexUsage};
use crate::text::{clamp_i64, decimal, decimal_string, saturating_sub_i64, signed_decimal, signed_decimal_string};

verus! {

/// The lines that report one quota window, ending with a blank line: the remaining
/// percentage, then the time left until it resets, or that the reset time is unknown.
pub open spec fn window_text(label: Seq<char>, remaining: u8, reset_at: Option<i64>, now: i64) -> Seq<
    char,
> {
    let reset_line = match reset_at {
        Some(at) => "Reset in "@ + duration_text(clamp_i64(at - now)) + "\n"@,
        None => "Reset time unavailable\n"@,
    };
    label + ": "@ + decimal(remaining as nat) + "% remaining\n"@ + reset_line + "\n"@
}

/// The text that reports one quota window at `now`.
pub fn window_report(label: &str, remaining: u8, reset_at: Option<i64>, now: i64) -> (r: String)
    ensures
        r@ == window_text(label@, remaining, reset_at, now),
{
    let mut s = String::from_str(label);
    s.append(": ");
    let digits = decimal_string(remaining as u64);
    s.append(digits.as_str());
    s.append("% remaining\n");
    match reset_at {
        Some(at) => {
            s.append("Reset in ");
            let left = human_duration(saturating_sub_i64(at, now));
            s.append(left.as_str());
            s.append("\n");
        },
        None => {
            s.append("Reset time unavailable\n");
        },
    }
    s.append("\n");
    s
}

/// The report of a usage at `now`, as the command-line program prints it.
pub open spec fn report_text(usage: CodexUsage, now: i64) -> Seq<char> {
    "Codex detected\n\n"@ + window_text(
        "5h"@,
        usage.five_hour_remaining,
        usage.five_hour_reset_at,
        now,
    ) + window_text("Weekly"@, usage.weekly_remaining, usage.weekly_reset_at, now) + "Source: "@
        + usage.source@ + "\n"@ + "Last updated: "@ + signed_decimal(usage.updated_at as int)
        + "\n"@ + if usage.stale {
        "Status: last known usage (stale)\n"@
    } else {
        Seq::empty()
    }
}

/// The report of a usage at `now`.
pub fn usage_report(usage: &CodexUsage, now: i64) -> (r: String)
    ensures
        r@ == report_text(*usage, now),
{
    let mut s = String::from_str("Codex detected\n\n");
    let five_hour = window_report("5h", usage.five_hour_remaining, usage.five_hour_reset_at, now);
    s.append(five_hour.as_str());
    let weekly = window_report("Weekly", usage.weekly_remaining, usage.weekly_reset_at, now);
    s.append(weekly.as_str());
    s.append("Source: ");
    s.append(usage.source.as_str());
    s.append("\n");
    s.append("Last updated: ");
    let updated = signed_decimal_string(usage.updated_at);
    s.append(updated.as_str());
    s.append("\n");
    if usage.stale {
        s.append("Status: last known usage (stale)\n");
    }
    s
}

/// The report ends with when the figures were observed (the usage's own
/// `updated_at`, whatever the time of printing) and, for a stale usage, the stale
/// notice: two reports of one usage at different times agree on that part.
pub proof fn lemma_report_shows_observation_time(usage: CodexUsage, now: i64)
    ensures
        ({
            let tail = "Last updated: "@ + signed_decimal(usage.updated_at as int) + "\n"@ + if usage.stale {
                "Status: last known usage (stale)\n"@
            } else {
                Seq::<char>::empty()
            };
            let text = report_text(usage, now);
            tail.len() <= text.len() && text.skip(text.len() - tail.len()) == tail
        }),
{
    let tail = "Last updated: "@ + signed_decimal(usage.updated_at as int) + "\n"@ + if usage.stale {
        "Status: last known usage (stale)\n"@
    } else {
        Seq::<char>::empty()
    };
    let head = "Codex detected\n\n"@ + window_text(
        "5h"@,
        usage.five_hour_remaining,
        usage.five_hour_reset_at,
        now,
    ) + window_text("Weekly"@, usage.weekly_remaining, usage.weekly_reset_at, now) + "Source: "@
        + usage.source@ + "\n"@;
    let text = report_text(usage, now);
    assert(text =~= head + tail);
    assert(text.skip(head.len() as int) =~= tail);
}

/// The report opens with the 5-hour window's remaining percentage, as given.
pub proof fn lemma_report_opens_with_five_hour_window(usage: CodexUsage, now: i64)
    ensures
        ({
            let start = "Codex detected\n\n"@ + "5h"@ + ": "@ + decimal(usage.five_hour_remaining as nat)
                + "% remaining\n"@;
            let text = report_text(usage, now);
            start.len() <= text.len() && text.take(start.len() as int) == start
        }),
{
    let start = "Codex detected\n\n"@ + "5h"@ + ": "@ + decimal(usage.five_hour_remaining as nat)
        + "% remaining\n"@;
    let text = report_text(usage, now);
    let reset_line = match usage.five_hour_reset_at {
        Some(at) => "Reset in "@ + duration_text(clamp_i64(at - now)) + "\n"@,
        None => "Reset time unavailable\n"@,
    };
    let rest = reset_line + "\n"@ + window_text(
        "Weekly"@,
        usage.weekly_remaining,
        usage.weekly_reset_at,
        now,
    ) + "Source: "@ + usage.source@ + "\n"@ + "Last updated: "@ + signed_decimal(
        usage.updated_at as int,
    ) + "\n"@ + if usage.stale {
        "Status: last known usage (stale)\n"@
    } else {
        Seq::<char>::empty()
    };
    assert(text =~= start + rest);
    assert(text.take(start.len() as int) =~= start);
}

/// A window's lines: the label and the remaining percentage as given, then the
/// time from `now` until the reset (read forward, from now to the reset), or that
/// the reset time is unknown, then a blank line. A reset already past reads as no
/// time left, the same as a reset due now.
pub proof fn lemma_window_lines(label: Seq<char>, remaining: u8, reset_at: Option<i64>, now: i64)
    ensures
        ({
            let head = label + ": "@ + decimal(remaining as nat) + "% remaining\n"@;
            let text = window_text(label, remaining, reset_at, now);
            &&& head.len() <= text.len()
            &&& text.take(head.len() as int) == head
            &&& reset_at is None ==> text.skip(head.len() as int) == "Reset time unavailable\n"@
                + "\n"@
            &&& reset_at matches Some(at) ==> (i64::MIN <= at - now <= i64::MAX ==> text.skip(
                head.len() as int,
            ) == "Reset in "@ + duration_text(at - now) + "\n"@ + "\n"@)
            &&& reset_at matches Some(at) ==> (at <= now ==> text == window_text(
                label,
                remaining,
                Some(now),
                now,
            ))
        }),
{
    let head = label + ": "@ + decimal(remaining as nat) + "% remaining\n"@;
    let text = window_text(label, remaining, reset_at, now);
    let reset_line = match reset_at {
        Some(at) => "Reset in "@ + duration_text(clamp_i64(at - now)) + "\n"@,
        None => "Reset time unavailable\n"@,
    };
    assert(text =~= head + (reset_line + "\n"@));
    assert(text.take(head.len() as int) =~= head);
    assert(text.skip(head.len() as int) =~= reset_line + "\n"@);
    if let Some(at) = reset_at {
        if at <= now {
            lemma_negative_duration_is_zero(clamp_i64(at - now));
            assert(clamp_i64(now - now) == 0);
        }
    }
}

} // verus!
