use vstd::prelude::*;

use crate::error::UsageError;
use crate::model::CodexUsage;
use crate::text::{clamp_i64, saturating_add_i64, saturating_sub_i64};

verus! {

/// A header of Codex's responses, as the request log records it:
/// `"x-codex-<name>": "<value>"`.
pub const HEADER_PATTERN: &'static str = r#""(x-codex-[^"]+)"\s*:\s*"([^"]*)""#;

/// The prefix that every Codex quota header's name has.
pub const CODEX_HEADER_PREFIX: &'static str = "x-codex-";

/// The header with the used percentage of the 5-hour window.
pub const PRIMARY_USED_HEADER: &'static str = "x-codex-primary-used-percent";

/// The header with the used percentage of the weekly window.
pub const SECONDARY_USED_HEADER: &'static str = "x-codex-secondary-used-percent";

/// The header with the seconds until the 5-hour window resets.
pub const PRIMARY_RESET_HEADER: &'static str = "x-codex-primary-reset-after-seconds";

/// The header with the seconds until the weekly window resets.
pub const SECONDARY_RESET_HEADER: &'static str = "x-codex-secondary-reset-after-seconds";

/// How old (in seconds) a log entry may be before its figures count as stale.
pub const STALE_AFTER_SECONDS: i64 = 1800;

/// Whether `s` begins with `prefix`.
pub open spec fn starts_with(s: Seq<char>, prefix: Seq<char>) -> bool {
    prefix.len() <= s.len() && s.subrange(0, prefix.len() as int) == prefix
}

/// Whether `s` holds a double quote.
pub open spec fn has_quote(s: Seq<char>) -> bool {
    exists|i: int| 0 <= i < s.len() && s[i] == '"'
}

/// The text of an optional `String`.
pub open spec fn opt_text(o: Option<String>) -> Option<Seq<char>> {
    match o {
        Some(s) => Some(s@),
        None => None,
    }
}

/// The texts of the two capture groups of each match.
pub open spec fn group_texts(v: Seq<(Option<String>, Option<String>)>) -> Seq<
    (Option<Seq<char>>, Option<Seq<char>>),
> {
    v.map_values(|p: (Option<String>, Option<String>)| (opt_text(p.0), opt_text(p.1)))
}

/// What `regex` finds: for the pattern (when it compiles) and the haystack, the
/// texts of capture groups 1 and 2 of each successive non-overlapping match.
pub uninterp spec fn regex_capture_pairs(pattern: Seq<char>, haystack: Seq<char>) -> Option<
    Seq<(Option<Seq<char>>, Option<Seq<char>>)>,
>;

/// Whether a match of `HEADER_PATTERN` has the shape that the pattern gives it:
/// both groups take part, the name begins with `x-codex-`, and neither holds a quote.
pub open spec fn is_header_capture(p: (Option<String>, Option<String>)) -> bool {
    &&& p.0 matches Some(name) && starts_with(name@, CODEX_HEADER_PREFIX@) && !has_quote(
        name@,
    )
    &&& p.1 matches Some(value) && !has_quote(value@)
}

/// Compiles `pattern` with `regex::Regex::new` and collects, for each match that
/// `Regex::captures_iter` finds in `haystack`, the texts of groups 1 and 2
/// (`Captures::get` and `Match::as_str`); `None` when the pattern does not compile.
/// Trusted: the result is the one named by `regex_capture_pairs`, and for
/// `HEADER_PATTERN` each match has the shape that the pattern's syntax gives it
/// (its groups are not optional; group 1 is `x-codex-[^"]+`, group 2 is `[^"]*`).
/// Which matches there are is not stated.
#[verifier::external_body]
fn capture_group_pairs(pattern: &str, haystack: &str) -> (r: Option<
    Vec<(Option<String>, Option<String>)>,
>)
    ensures
        r is None <==> regex_capture_pairs(pattern@, haystack@) is None,
        r matches Some(v) ==> regex_capture_pairs(pattern@, haystack@) == Some(group_texts(v@)),
        r matches Some(v) ==> (pattern@ == HEADER_PATTERN@ ==> forall|i: int|
            0 <= i < v.len() ==> is_header_capture(#[trigger] v@[i])),
{
    match regex::Regex::new(pattern) {
        Ok(re) => Some(
            re.captures_iter(haystack).map(
                |caps| (caps.get(1).map(|m| m.as_str().to_owned()), caps.get(2).map(|m| m.as_str().to_owned())),
            ).collect(),
        ),
        Err(_) => None,
    }
}

/// The value of `name` among `entries` read as a map filled in order: the last
/// entry with that name wins.
pub open spec fn lookup_last(entries: Seq<(Seq<char>, Seq<char>)>, name: Seq<char>) -> Option<
    Seq<char>,
>
    decreases entries.len(),
{
    if entries.len() == 0 {
        None
    } else if entries.last().0 == name {
        Some(entries.last().1)
    } else {
        lookup_last(entries.drop_last(), name)
    }
}

/// The pairs of the matches in which both groups took part, in order.
pub open spec fn complete_pairs(pairs: Seq<(Option<Seq<char>>, Option<Seq<char>>)>) -> Seq<
    (Seq<char>, Seq<char>),
>
    decreases pairs.len(),
{
    if pairs.len() == 0 {
        Seq::empty()
    } else {
        let rest = complete_pairs(pairs.drop_last());
        match pairs.last() {
            (Some(name), Some(value)) => rest.push((name, value)),
            _ => rest,
        }
    }
}

/// The Codex quota headers found in a log entry, in order of appearance. Every
/// name begins with `x-codex-`.
pub struct CodexHeaders {
    entries: Vec<(String, String)>,
}

impl View for CodexHeaders {
    type V = Seq<(Seq<char>, Seq<char>)>;

    closed spec fn view(&self) -> Seq<(Seq<char>, Seq<char>)> {
        entry_texts(self.entries@)
    }
}

impl CodexHeaders {
    #[verifier::type_invariant]
    spec fn only_codex_names(&self) -> bool {
        forall|i: int|
            0 <= i < self.entries.len() ==> starts_with(
                (#[trigger] self.entries@[i]).0@,
                CODEX_HEADER_PREFIX@,
            )
    }

    /// The value of the header `name` (the last one when it occurs more than once).
    pub fn get(&self, name: &str) -> (r: Option<&str>)
        ensures
            opt_str(r) == lookup_last(self@, name@),
            !starts_with(name@, CODEX_HEADER_PREFIX@) ==> r is None,
    {
        proof {
            use_type_invariant(self);
            if !starts_with(name@, CODEX_HEADER_PREFIX@) {
                assert forall|k: int| 0 <= k < self@.len() implies (#[trigger] self@[k]).0
                    != name@ by {
                    assert(self@[k].0 == self.entries@[k].0@);
                    assert(starts_with(self.entries@[k].0@, CODEX_HEADER_PREFIX@));
                }
                lemma_lookup_absent(self@, name@);
            }
        }
        let wanted = String::from_str(name);
        let mut i = self.entries.len();
        assert(self@.take(i as int) =~= self@);
        while i > 0
            invariant
                i <= self.entries.len(),
                self@.len() == self.entries.len(),
                !starts_with(name@, CODEX_HEADER_PREFIX@) ==> lookup_last(self@, name@) is None,
                wanted@ == name@,
                lookup_last(self@, name@) == lookup_last(self@.take(i as int), name@),
            decreases i,
        {
            proof {
                assert(self@.take(i as int).drop_last() =~= self@.take(i - 1));
                assert(self@.take(i as int).last() == self@[i - 1]);
                assert(self@[i - 1] == (self.entries@[i - 1].0@, self.entries@[i - 1].1@));
            }
            if self.entries[i - 1].0 == wanted {
                return Some(self.entries[i - 1].1.as_str());
            }
            i = i - 1;
        }
        None
    }

    /// Whether the header `name` was found.
    pub fn contains_key(&self, name: &str) -> (r: bool)
        ensures
            r == (lookup_last(self@, name@) is Some),
    {
        self.get(name).is_some()
    }
}

/// The text of an optional `&str`.
pub open spec fn opt_str(o: Option<&str>) -> Option<Seq<char>> {
    match o {
        Some(s) => Some(s@),
        None => None,
    }
}

proof fn lemma_lookup_absent(entries: Seq<(Seq<char>, Seq<char>)>, name: Seq<char>)
    requires
        forall|i: int| 0 <= i < entries.len() ==> (#[trigger] entries[i]).0 != name,
    ensures
        lookup_last(entries, name) is None,
    decreases entries.len(),
{
    if entries.len() > 0 {
        assert(entries.last() == entries[entries.len() - 1]);
        assert forall|i: int| 0 <= i < entries.drop_last().len() implies (
        #[trigger] entries.drop_last()[i]).0 != name by {
            assert(entries.drop_last()[i] == entries[i]);
        }
        lemma_lookup_absent(entries.drop_last(), name);
    }
}

/// The texts of name-value entries.
pub open spec fn entry_texts(v: Seq<(String, String)>) -> Seq<(Seq<char>, Seq<char>)> {
    v.map_values(|e: (String, String)| (e.0@, e.1@))
}

/// The name and value of each match in which both capture groups took part, in
/// order. When every match has the shape of a Codex header, so does every entry.
pub fn complete_captures(pairs: &Vec<(Option<String>, Option<String>)>) -> (r: Vec<
    (String, String),
>)
    ensures
        entry_texts(r@) == complete_pairs(group_texts(pairs@)),
        (forall|k: int| 0 <= k < pairs.len() ==> is_header_capture(#[trigger] pairs@[k]))
            ==> forall|k: int|
            0 <= k < r.len() ==> starts_with((#[trigger] r@[k]).0@, CODEX_HEADER_PREFIX@),
{
    let ghost all = group_texts(pairs@);
    let ghost shaped = forall|k: int| 0 <= k < pairs.len() ==> is_header_capture(#[trigger] pairs@[k]);
    let mut entries: Vec<(String, String)> = Vec::new();
    let n = pairs.len();
    let mut i: usize = 0;
    while i < n
        invariant
            n == pairs.len(),
            i <= n,
            all == group_texts(pairs@),
            shaped == forall|k: int| 0 <= k < pairs.len() ==> is_header_capture(#[trigger] pairs@[k]),
            entry_texts(entries@) == complete_pairs(all.take(i as int)),
            shaped ==> forall|k: int|
                0 <= k < entries.len() ==> starts_with(
                    (#[trigger] entries@[k]).0@,
                    CODEX_HEADER_PREFIX@,
                ),
        decreases n - i,
    {
        proof {
            assert(all.take(i + 1).drop_last() =~= all.take(i as int));
            assert(all.take(i + 1).last() == all[i as int]);
            assert(all[i as int] == (opt_text(pairs@[i as int].0), opt_text(pairs@[i as int].1)));
            if shaped {
                assert(is_header_capture(pairs@[i as int]));
            }
        }
        match (&pairs[i].0, &pairs[i].1) {
            (Some(name), Some(value)) => {
                let ghost before = entries@;
                entries.push((name.clone(), value.clone()));
                proof {
                    assert(entries@ == before.push((*name, *value)));
                    assert(entry_texts(entries@) =~= entry_texts(before).push((name@, value@)));
                }
            },
            _ => {},
        }
        i = i + 1;
    }
    proof {
        assert(all.take(n as int) =~= all);
    }
    entries
}

/// The Codex headers that the request log recorded in `body`: the name and value of
/// each match of `HEADER_PATTERN`, in order (none when the pattern does not compile).
pub fn codex_headers(body: &str) -> (r: CodexHeaders)
    ensures
        r@ == match regex_capture_pairs(HEADER_PATTERN@, body@) {
            Some(pairs) => complete_pairs(pairs),
            None => Seq::empty(),
        },
        forall|i: int| 0 <= i < r@.len() ==> starts_with((#[trigger] r@[i]).0, CODEX_HEADER_PREFIX@),
{
    match capture_group_pairs(HEADER_PATTERN, body) {
        None => {
            let r = CodexHeaders { entries: Vec::new() };
            assert(r@ =~= Seq::empty());
            r
        },
        Some(pairs) => {
            let entries = complete_captures(&pairs);
            let r = CodexHeaders { entries };
            assert forall|i: int| 0 <= i < r@.len() implies starts_with(
                (#[trigger] r@[i]).0,
                CODEX_HEADER_PREFIX@,
            ) by {
                assert(r@[i].0 == r.entries@[i].0@);
            }
            r
        },
    }
}

/// The texts of the quota headers of a log entry, before they are read as numbers.
pub struct LogFields {
    pub primary_used: String,
    pub secondary_used: String,
    pub primary_reset_after: Option<String>,
    pub secondary_reset_after: Option<String>,
}

fn owned(o: Option<&str>) -> (r: Option<String>)
    ensures
        opt_text(r) == opt_str(o),
{
    match o {
        Some(s) => Some(String::from_str(s)),
        None => None,
    }
}

/// The quota headers of a log entry; `None` unless both used percentages are there.
pub fn log_fields(headers: &CodexHeaders) -> (r: Option<LogFields>)
    ensures
        r is Some <==> (lookup_last(headers@, PRIMARY_USED_HEADER@) is Some && lookup_last(
            headers@,
            SECONDARY_USED_HEADER@,
        ) is Some),
        r matches Some(f) ==> {
            &&& Some(f.primary_used@) == lookup_last(headers@, PRIMARY_USED_HEADER@)
            &&& Some(f.secondary_used@) == lookup_last(headers@, SECONDARY_USED_HEADER@)
            &&& opt_text(f.primary_reset_after) == lookup_last(headers@, PRIMARY_RESET_HEADER@)
            &&& opt_text(f.secondary_reset_after) == lookup_last(
                headers@,
                SECONDARY_RESET_HEADER@,
            )
        },
{
    let primary_used = match headers.get(PRIMARY_USED_HEADER) {
        Some(v) => String::from_str(v),
        None => return None,
    };
    let secondary_used = match headers.get(SECONDARY_USED_HEADER) {
        Some(v) => String::from_str(v),
        None => return None,
    };
    let primary_reset_after = owned(headers.get(PRIMARY_RESET_HEADER));
    let secondary_reset_after = owned(headers.get(SECONDARY_RESET_HEADER));
    Some(LogFields { primary_used, secondary_used, primary_reset_after, secondary_reset_after })
}

/// The figures of a log entry as whole numbers: the remaining percentages of both
/// windows (turned from the used percentages), and the whole seconds until each
/// resets when the entry gave a usable count.
#[derive(Debug, Clone, Copy, PartialEq, Eq)]
pub struct LogReading {
    pub primary_remaining: u8,
    pub secondary_remaining: u8,
    pub primary_reset_after: Option<i64>,
    pub secondary_reset_after: Option<i64>,
}

/// Whether an entry observed at `observed_at` is stale at `now`.
pub open spec fn stale_at(observed_at: i64, now: i64) -> bool {
    clamp_i64(now - observed_at) > STALE_AFTER_SECONDS
}

/// Whether an entry observed at `observed_at` is more than half an hour old at `now`.
pub fn is_stale(observed_at: i64, now: i64) -> (r: bool)
    ensures
        r == stale_at(observed_at, now),
{
    saturating_sub_i64(now, observed_at) > STALE_AFTER_SECONDS
}

/// When a window resets, by a log entry: unknown for a stale entry, else the
/// observation time plus the seconds left (saturating).
pub open spec fn log_reset(observed_at: i64, reset_after: Option<i64>, stale: bool) -> Option<
    i64,
> {
    if stale {
        None
    } else {
        match reset_after {
            Some(after) => Some(clamp_i64(observed_at + after) as i64),
            None => None,
        }
    }
}

/// When a window resets by a log entry; a stale entry's reset time is not presented.
pub fn reset_from_log(observed_at: i64, reset_after: Option<i64>, stale: bool) -> (r: Option<i64>)
    ensures
        r == log_reset(observed_at, reset_after, stale),
{
    if stale {
        return None;
    }
    match reset_after {
        Some(after) => Some(saturating_add_i64(observed_at, after)),
        None => None,
    }
}

/// Whether `u` is the usage that a log entry observed at `observed_at` reports at `now`.
pub open spec fn is_log_usage(u: CodexUsage, observed_at: i64, reading: LogReading, now: i64) -> bool {
    let stale = stale_at(observed_at, now);
    &&& u.five_hour_remaining == reading.primary_remaining
    &&& u.weekly_remaining == reading.secondary_remaining
    &&& u.five_hour_reset_at == log_reset(observed_at, reading.primary_reset_after, stale)
    &&& u.weekly_reset_at == log_reset(observed_at, reading.secondary_reset_after, stale)
    &&& u.updated_at == observed_at
    &&& u.source@ == "logs"@
    &&& u.stale == stale
}

/// The usage that a log entry observed at `observed_at` reports, read at `now`.
pub fn usage_from_log_reading(observed_at: i64, reading: &LogReading, now: i64) -> (r: CodexUsage)
    ensures
        is_log_usage(r, observed_at, *reading, now),
{
    let stale = is_stale(observed_at, now);
    CodexUsage {
        five_hour_remaining: reading.primary_remaining,
        weekly_remaining: reading.secondary_remaining,
        five_hour_reset_at: reset_from_log(observed_at, reading.primary_reset_after, stale),
        weekly_reset_at: reset_from_log(observed_at, reading.secondary_reset_after, stale),
        updated_at: observed_at,
        source: String::from_str("logs"),
        stale,
    }
}

/// A stale log entry's reset times are never presented as current, and a fresh
/// entry's are its observation time plus the seconds it gave.
pub proof fn lemma_stale_entries_have_no_reset(
    u: CodexUsage,
    observed_at: i64,
    reading: LogReading,
    now: i64,
)
    requires
        is_log_usage(u, observed_at, reading, now),
    ensures
        u.stale ==> u.five_hour_reset_at is None && u.weekly_reset_at is None,
        !u.stale ==> (reading.primary_reset_after matches Some(a) ==> u.five_hour_reset_at
            == Some(clamp_i64(observed_at + a) as i64)),
        !u.stale ==> (reading.secondary_reset_after matches Some(a) ==> u.weekly_reset_at
            == Some(clamp_i64(observed_at + a) as i64)),
{
}

/// What reading one log database gave: a usage, nothing usable, or a failure.
pub type LogOutcome = Result<Option<CodexUsage>, UsageError>;

/// What to do after one row of a log database's query: go on to the next row, or
/// stop with the database's outcome.
pub enum RowStep {
    Next,
    Stop(LogOutcome),
}

/// The rows of a log database are taken newest first: a row that could not be read
/// makes the database unreadable, the first row that reports a usage is the
/// database's answer, and a row that reports none is passed over. `row` is `Err`
/// when reading the row failed, else the usage that the row reports, if any.
pub fn row_step(row: Result<Option<CodexUsage>, ()>) -> (r: RowStep)
    ensures
        row is Err ==> r == RowStep::Stop(Err(UsageError::LogRead)),
        row matches Ok(Some(u)) ==> r == RowStep::Stop(Ok(Some(u))),
        row matches Ok(None) ==> r == RowStep::Next,
{
    match row {
        Err(()) => RowStep::Stop(Err(UsageError::LogRead)),
        Ok(Some(usage)) => RowStep::Stop(Ok(Some(usage))),
        Ok(None) => RowStep::Next,
    }
}

/// The search through the log databases, one candidate after another: the first
/// usage found is the answer; when none is found, the error says whether any
/// database could not be read.
pub struct LogSearch {
    read_failed: bool,
}

impl LogSearch {
    /// Whether some database could not be read so far.
    pub closed spec fn failed(&self) -> bool {
        self.read_failed
    }

    /// A search that has seen no database yet.
    pub fn new() -> (r: LogSearch)
        ensures
            !r.failed(),
    {
        LogSearch { read_failed: false }
    }

    /// Takes in what one database gave; returns the usage when it gave one (and the
    /// search is over).
    pub fn observe(&mut self, outcome: LogOutcome) -> (r: Option<CodexUsage>)
        ensures
            outcome matches Ok(Some(u)) ==> r == Some(u),
            !(outcome matches Ok(Some(_))) ==> r is None,
            final(self).failed() == (old(self).failed() || outcome is Err),
    {
        match outcome {
            Ok(Some(usage)) => Some(usage),
            Ok(None) => None,
            Err(_) => {
                self.read_failed = true;
                None
            },
        }
    }

    /// The error once every database has been tried without finding a usage.
    pub fn finish(&self) -> (r: UsageError)
        ensures
            self.failed() ==> r == UsageError::LogRead,
            !self.failed() ==> r == UsageError::LogDataUnavailable,
    {
        if self.read_failed {
            UsageError::LogRead
        } else {
            UsageError::LogDataUnavailable
        }
    }
}

/// Whether both capture groups of a match took part.
pub open spec fn is_complete_pair(p: (Option<Seq<char>>, Option<Seq<char>>)) -> bool {
    p.0 is Some && p.1 is Some
}

/// The matches in which both groups took part, in order.
pub open spec fn complete_matches(pairs: Seq<(Option<Seq<char>>, Option<Seq<char>>)>) -> Seq<
    (Option<Seq<char>>, Option<Seq<char>>),
> {
    pairs.filter(|p: (Option<Seq<char>>, Option<Seq<char>>)| is_complete_pair(p))
}

/// One more match adds its name and value at the end when both groups took part,
/// and changes nothing otherwise: no complete match is ever dropped or reordered.
pub proof fn lemma_complete_pairs_push(
    pairs: Seq<(Option<Seq<char>>, Option<Seq<char>>)>,
    last: (Option<Seq<char>>, Option<Seq<char>>),
)
    ensures
        last matches (Some(name), Some(value)) ==> complete_pairs(pairs.push(last))
            == complete_pairs(pairs).push((name, value)),
        !is_complete_pair(last) ==> complete_pairs(pairs.push(last)) == complete_pairs(pairs),
{
    assert(pairs.push(last).drop_last() =~= pairs);
}

/// The entries are exactly the complete matches, in order, each as its name and
/// value; so there are as many entries as matches in which both groups took part.
pub proof fn lemma_complete_pairs_are_complete_matches(
    pairs: Seq<(Option<Seq<char>>, Option<Seq<char>>)>,
)
    ensures
        complete_pairs(pairs) == complete_matches(pairs).map_values(
            |p: (Option<Seq<char>>, Option<Seq<char>>)| (p.0->0, p.1->0),
        ),
        complete_pairs(pairs).len() == complete_matches(pairs).len(),
    decreases pairs.len(),
{
    reveal_with_fuel(Seq::filter, 1);
    if pairs.len() > 0 {
        lemma_complete_pairs_are_complete_matches(pairs.drop_last());
        let f = |p: (Option<Seq<char>>, Option<Seq<char>>)| (p.0->0, p.1->0);
        let rest = complete_matches(pairs.drop_last());
        if is_complete_pair(pairs.last()) {
            assert(complete_matches(pairs) == rest.push(pairs.last()));
            assert(rest.push(pairs.last()).map_values(f) =~= rest.map_values(f).push(
                f(pairs.last()),
            ));
        } else {
            assert(complete_matches(pairs) == rest);
        }
    } else {
        assert(complete_matches(pairs) =~= Seq::empty());
        assert(complete_pairs(pairs) =~= Seq::empty());
    }
}

/// Looking a name up among entries filled in order gives the value of the last
/// entry with that name: a new entry for the name replaces its value, an entry for
/// another name leaves it as it was, and no entry means no value.
pub proof fn lemma_lookup_last_wins(
    entries: Seq<(Seq<char>, Seq<char>)>,
    name: Seq<char>,
    other: Seq<char>,
    value: Seq<char>,
)
    ensures
        lookup_last(entries.push((name, value)), name) == Some(value),
        other != name ==> lookup_last(entries.push((other, value)), name) == lookup_last(
            entries,
            name,
        ),
        lookup_last(Seq::<(Seq<char>, Seq<char>)>::empty(), name) is None,
{
    assert(entries.push((other, value)).drop_last() =~= entries);
}

/// What a log entry reports: its own figures and observation time, whatever the
/// time of reading; it is stale exactly when it is more than half an hour old; a
/// stale entry shows no reset times, and a fresh one shows the observation time
/// plus the seconds it gave (when that fits in an `i64`).
pub proof fn lemma_log_usage_keeps_figures(
    u: CodexUsage,
    observed_at: i64,
    reading: LogReading,
    now: i64,
)
    requires
        is_log_usage(u, observed_at, reading, now),
    ensures
        u.five_hour_remaining == reading.primary_remaining,
        u.weekly_remaining == reading.secondary_remaining,
        u.updated_at == observed_at,
        u.stale == (now - observed_at > 1800),
        u.stale ==> u.five_hour_reset_at is None && u.weekly_reset_at is None,
        reading.primary_reset_after is None ==> u.five_hour_reset_at is None,
        reading.secondary_reset_after is None ==> u.weekly_reset_at is None,
        !u.stale ==> (reading.primary_reset_after matches Some(a) ==> (i64::MIN <= observed_at
            + a <= i64::MAX ==> u.five_hour_reset_at == Some((observed_at + a) as i64))),
        !u.stale ==> (reading.secondary_reset_after matches Some(a) ==> (i64::MIN <= observed_at
            + a <= i64::MAX ==> u.weekly_reset_at == Some((observed_at + a) as i64))),
{
}

/// Reading one log entry at two times gives the same figures, observation time and
/// source; only its age differs, and an entry once stale stays stale later.
pub proof fn lemma_log_usage_ages_only(
    u1: CodexUsage,
    u2: CodexUsage,
    observed_at: i64,
    reading: LogReading,
    now1: i64,
    now2: i64,
)
    requires
        is_log_usage(u1, observed_at, reading, now1),
        is_log_usage(u2, observed_at, reading, now2),
    ensures
        u1.five_hour_remaining == u2.five_hour_remaining,
        u1.weekly_remaining == u2.weekly_remaining,
        u1.updated_at == u2.updated_at,
        u1.source@ == u2.source@,
        now1 <= now2 && u1.stale ==> u2.stale,
        !u1.stale && !u2.stale ==> u1.five_hour_reset_at == u2.five_hour_reset_at
            && u1.weekly_reset_at == u2.weekly_reset_at,
{
}

} // verus!
