use vstd::prelude::*;

use crate::text::{
    decimal, decimal_string, lemma_decimal_injective, lemma_decimal_spells,
    lemma_split_at_digits,
};

verus! {

/// What is known of the account's quota: the remaining share of the 5-hour and
/// weekly windows, when each resets, when the figures were observed, where they
/// came from (`"api"` or `"logs"`), and whether they are an old observation.
#[derive(Debug, Clone, PartialEq, Eq)]
pub struct CodexUsage {
    pub five_hour_remaining: u8,
    pub weekly_remaining: u8,
    pub five_hour_reset_at: Option<i64>,
    pub weekly_reset_at: Option<i64>,
    pub updated_at: i64,
    pub source: String,
    pub stale: bool,
}

/// Whole minutes in `seconds`, negative durations counting as none.
pub open spec fn total_minutes(seconds: int) -> nat {
    if seconds < 0 {
        0
    } else {
        (seconds / 60) as nat
    }
}

/// Whole days of a duration.
pub open spec fn duration_days(seconds: int) -> nat {
    total_minutes(seconds) / 1440
}

/// Hours of a duration beyond its whole days.
pub open spec fn duration_hours(seconds: int) -> nat {
    (total_minutes(seconds) % 1440) / 60
}

/// Minutes of a duration beyond its whole hours.
pub open spec fn duration_minutes(seconds: int) -> nat {
    total_minutes(seconds) % 60
}

/// A duration as `"{d}d {h}h {m}m"`, or `"{h}h {m}m"` when it is under a day.
pub open spec fn duration_text(seconds: int) -> Seq<char> {
    let hm = decimal(duration_hours(seconds)) + "h "@ + decimal(duration_minutes(seconds))
        + "m"@;
    if duration_days(seconds) > 0 {
        decimal(duration_days(seconds)) + "d "@ + hm
    } else {
        hm
    }
}

/// Formats a number of seconds in the compact day/hour/minute form.
pub fn human_duration(seconds: i64) -> (r: String)
    ensures
        r@ == duration_text(seconds as int),
{
    let clamped: i64 = if seconds < 0 {
        0
    } else {
        seconds
    };
    let total: i64 = clamped / 60;
    let days: i64 = total / (24 * 60);
    let hours: i64 = (total % (24 * 60)) / 60;
    let minutes: i64 = total % 60;
    let mut s = String::new();
    if days > 0 {
        let d = decimal_string(days as u64);
        s.append(d.as_str());
        s.append("d ");
    }
    let h = decimal_string(hours as u64);
    s.append(h.as_str());
    s.append("h ");
    let m = decimal_string(minutes as u64);
    s.append(m.as_str());
    s.append("m");
    s
}

/// The parts of a non-negative duration put back together fall short of it by
/// less than a minute, with fewer than 24 hours and 60 minutes.
pub proof fn lemma_duration_parts(seconds: int)
    requires
        seconds >= 0,
    ensures
        duration_hours(seconds) < 24,
        duration_minutes(seconds) < 60,
        duration_days(seconds) * 86400 + duration_hours(seconds) * 3600 + duration_minutes(
            seconds,
        ) * 60 <= seconds,
        seconds < duration_days(seconds) * 86400 + duration_hours(seconds) * 3600
            + duration_minutes(seconds) * 60 + 60,
{
    let t = total_minutes(seconds) as int;
    let d = duration_days(seconds) as int;
    let h = duration_hours(seconds) as int;
    let m = duration_minutes(seconds) as int;
    assert(t == d * 1440 + (t % 1440)) by (nonlinear_arith)
        requires
            d == t / 1440,
            t >= 0,
    ;
    assert(t % 1440 == h * 60 + m) by (nonlinear_arith)
        requires
            h == (t % 1440) / 60,
            m == t % 60,
            t >= 0,
    ;
    assert(seconds == t * 60 + seconds % 60) by (nonlinear_arith)
        requires
            t == seconds / 60,
            seconds >= 0,
    ;
}

/// The hours-and-minutes part of a duration's text.
pub open spec fn hours_minutes_text(h: nat, m: nat) -> Seq<char> {
    decimal(h) + "h "@ + decimal(m) + "m"@
}

proof fn lemma_hours_minutes_injective(h1: nat, m1: nat, h2: nat, m2: nat)
    requires
        hours_minutes_text(h1, m1) == hours_minutes_text(h2, m2),
    ensures
        h1 == h2,
        m1 == m2,
{
    reveal_strlit("h ");
    reveal_strlit("m");
    lemma_decimal_spells(h1);
    lemma_decimal_spells(h2);
    lemma_decimal_spells(m1);
    lemma_decimal_spells(m2);
    let rest1 = "h "@ + decimal(m1) + "m"@;
    let rest2 = "h "@ + decimal(m2) + "m"@;
    assert(hours_minutes_text(h1, m1) =~= decimal(h1) + rest1);
    assert(hours_minutes_text(h2, m2) =~= decimal(h2) + rest2);
    assert(rest1[0] == 'h');
    assert(rest2[0] == 'h');
    lemma_split_at_digits(decimal(h1), rest1, decimal(h2), rest2);
    assert(rest1.skip(2) =~= decimal(m1) + "m"@);
    assert(rest2.skip(2) =~= decimal(m2) + "m"@);
    assert(("m"@)[0] == 'm');
    lemma_split_at_digits(decimal(m1), "m"@, decimal(m2), "m"@);
    lemma_decimal_injective(h1, h2);
    lemma_decimal_injective(m1, m2);
}

proof fn lemma_minutes_recompose(t: nat)
    ensures
        t == (t / 1440) * 1440 + ((t % 1440) / 60) * 60 + t % 60,
{
    assert(t == (t / 1440) * 1440 + t % 1440) by (nonlinear_arith);
    assert(t % 1440 == ((t % 1440) / 60) * 60 + (t % 1440) % 60) by (nonlinear_arith);
    assert((t % 1440) % 60 == t % 60) by (nonlinear_arith);
}

/// Two durations read the same exactly when they have the same number of whole
/// minutes (a negative duration counting as none): seconds below a whole minute
/// are dropped, and different minute counts give different texts.
pub proof fn lemma_duration_text_injective(a: int, b: int)
    ensures
        duration_text(a) == duration_text(b) <==> total_minutes(a) == total_minutes(b),
{
    if duration_text(a) == duration_text(b) {
        reveal_strlit("d ");
        reveal_strlit("h ");
        let (da, ha, ma) = (duration_days(a), duration_hours(a), duration_minutes(a));
        let (db, hb, mb) = (duration_days(b), duration_hours(b), duration_minutes(b));
        lemma_decimal_spells(da);
        lemma_decimal_spells(db);
        lemma_decimal_spells(ha);
        lemma_decimal_spells(hb);
        let hm_a = hours_minutes_text(ha, ma);
        let hm_b = hours_minutes_text(hb, mb);
        let after_a = if da > 0 {
            "d "@ + hm_a
        } else {
            "h "@ + decimal(ma) + "m"@
        };
        let after_b = if db > 0 {
            "d "@ + hm_b
        } else {
            "h "@ + decimal(mb) + "m"@
        };
        let lead_a = if da > 0 {
            decimal(da)
        } else {
            decimal(ha)
        };
        let lead_b = if db > 0 {
            decimal(db)
        } else {
            decimal(hb)
        };
        assert(duration_text(a) =~= lead_a + after_a);
        assert(duration_text(b) =~= lead_b + after_b);
        assert(after_a[0] == if da > 0 {
            'd'
        } else {
            'h'
        });
        assert(after_b[0] == if db > 0 {
            'd'
        } else {
            'h'
        });
        lemma_split_at_digits(lead_a, after_a, lead_b, after_b);
        if da > 0 {
            assert(db > 0);
            assert(after_a.skip(2) =~= hm_a);
            assert(after_b.skip(2) =~= hm_b);
            lemma_decimal_injective(da, db);
        } else {
            assert(db == 0);
            assert(duration_text(a) == hm_a);
            assert(duration_text(b) == hm_b);
        }
        lemma_hours_minutes_injective(ha, ma, hb, mb);
        lemma_minutes_recompose(total_minutes(a));
        lemma_minutes_recompose(total_minutes(b));
    }
}

/// A non-negative duration in seconds reads as its whole days (only when there is
/// at least one), then its hours within the day and its minutes within the hour.
pub proof fn lemma_duration_text_by_units(s: int)
    requires
        s >= 0,
    ensures
        duration_text(s) == (if s >= 86400 {
            decimal((s / 86400) as nat) + "d "@
        } else {
            Seq::<char>::empty()
        }) + decimal(((s / 3600) % 24) as nat) + "h "@ + decimal(((s / 60) % 60) as nat) + "m"@,
{
    let t = s / 60;
    vstd::arithmetic::div_mod::lemma_div_denominator(s, 60, 1440);
    vstd::arithmetic::div_mod::lemma_div_denominator(s, 60, 60);
    vstd::arithmetic::div_mod::lemma_mod_breakdown(t, 60, 24);
    assert(t % 1440 == 60 * ((t / 60) % 24) + t % 60);
    let q = (t / 60) % 24;
    let r = t % 60;
    assert((60 * q + r) / 60 == q) by (nonlinear_arith)
        requires
            0 <= r < 60,
            q >= 0,
    ;
    assert(duration_days(s) == s / 86400);
    assert(duration_hours(s) == (s / 3600) % 24);
    assert(duration_minutes(s) == (s / 60) % 60);
    assert(s >= 86400 <==> s / 86400 > 0);
    if s >= 86400 {
        assert(duration_text(s) =~= decimal((s / 86400) as nat) + "d "@ + (decimal(
            ((s / 3600) % 24) as nat,
        ) + "h "@ + decimal(((s / 60) % 60) as nat) + "m"@));
    } else {
        assert(Seq::<char>::empty() + decimal(((s / 3600) % 24) as nat) =~= decimal(
            ((s / 3600) % 24) as nat,
        ));
    }
}

/// A negative duration reads as no time at all.
pub proof fn lemma_negative_duration_is_zero(seconds: int)
    requires
        seconds <= 0,
    ensures
        duration_text(seconds) == duration_text(0),
{
}

} // verus!
