use vstd::prelude::*;

use crate::text::{decimal, decimal_string};

verus! {

/// Why the usage of the signed-in Codex account could not be reported.
#[derive(Debug, PartialEq, Eq)]
pub enum UsageError {
    /// The Codex home directory (shown by its path) does not exist.
    CodexNotDetected(String),
    NotLoggedIn,
    AuthRead,
    AuthFormat,
    SessionExpired,
    HttpStatus(u16),
    Network(String),
    ResponseFormat,
    LogDataUnavailable,
    LogRead,
    ProvidersFailed { api: String, logs: String },
}

/// Whether the error says that no usable sign-in was found.
pub open spec fn is_auth_error(e: UsageError) -> bool {
    e is NotLoggedIn || e is AuthRead || e is AuthFormat
}

/// The short message shown to the user for an error; it carries none of the
/// error's data.
pub open spec fn user_message_text(e: UsageError) -> Seq<char> {
    match e {
        UsageError::CodexNotDetected(_) => "Codex not detected"@,
        UsageError::NotLoggedIn | UsageError::AuthRead | UsageError::AuthFormat =>
            "Codex is not logged in"@,
        UsageError::SessionExpired => "Codex session expired"@,
        _ => "Unable to refresh Codex usage"@,
    }
}

/// The full description of an error, with the data it carries.
pub open spec fn description_text(e: UsageError) -> Seq<char> {
    match e {
        UsageError::CodexNotDetected(path) => "Codex was not detected at "@ + path@,
        UsageError::NotLoggedIn => "Codex is not logged in"@,
        UsageError::AuthRead => "unable to read Codex authentication"@,
        UsageError::AuthFormat => "Codex authentication data has an unsupported format"@,
        UsageError::SessionExpired => "Codex session expired"@,
        UsageError::HttpStatus(code) => "usage request returned HTTP "@ + decimal(code as nat),
        UsageError::Network(reason) => "usage request failed: "@ + reason@,
        UsageError::ResponseFormat => "usage response has an unsupported format"@,
        UsageError::LogDataUnavailable =>
            "no usable Codex quota entry was found in local logs"@,
        UsageError::LogRead => "unable to read Codex logs"@,
        UsageError::ProvidersFailed { api, logs } =>
            "unable to refresh usage; API: "@ + api@ + "; logs: "@ + logs@,
    }
}

/// The message shown to the user is one of four fixed texts, so it carries none of
/// the data that an error holds (paths, server replies, descriptions).
pub proof fn lemma_user_message_is_fixed(e: UsageError)
    ensures
        user_message_text(e) == "Codex not detected"@ || user_message_text(e)
            == "Codex is not logged in"@ || user_message_text(e) == "Codex session expired"@
            || user_message_text(e) == "Unable to refresh Codex usage"@,
        forall|f: UsageError|
            #![trigger user_message_text(f)]
            (f is CodexNotDetected && e is CodexNotDetected) || (f is Network && e is Network)
                || (f is HttpStatus && e is HttpStatus) || (f is ProvidersFailed
                && e is ProvidersFailed) ==> user_message_text(f) == user_message_text(e),
{
}

/// Which message the user sees, for every error: the sign-in message exactly for
/// the three sign-in errors, the expired-session message exactly for an expired
/// session, the not-detected message exactly for a missing Codex home, and the
/// refresh-failure message for everything else.
pub proof fn lemma_user_message_by_kind(e: UsageError)
    ensures
        user_message_text(e) == "Codex is not logged in"@ <==> (e is NotLoggedIn || e is AuthRead
            || e is AuthFormat),
        user_message_text(e) == "Codex session expired"@ <==> e is SessionExpired,
        user_message_text(e) == "Codex not detected"@ <==> e is CodexNotDetected,
        user_message_text(e) == "Unable to refresh Codex usage"@ <==> (e is HttpStatus
            || e is Network || e is ResponseFormat || e is LogDataUnavailable || e is LogRead
            || e is ProvidersFailed),
{
    reveal_strlit("Codex is not logged in");
    reveal_strlit("Codex session expired");
    reveal_strlit("Codex not detected");
    reveal_strlit("Unable to refresh Codex usage");
    assert("Codex is not logged in"@.len() == 22);
    assert("Codex session expired"@.len() == 21);
    assert("Codex not detected"@.len() == 18);
    assert("Unable to refresh Codex usage"@.len() == 29);
}

/// The description of an HTTP error names its status code (different codes give
/// different descriptions), and that of a network error ends with its reason.
pub proof fn lemma_description_carries_data(code1: u16, code2: u16, reason: String)
    ensures
        description_text(UsageError::HttpStatus(code1)) == description_text(
            UsageError::HttpStatus(code2),
        ) <==> code1 == code2,
        ({
            let d = description_text(UsageError::Network(reason));
            reason@.len() <= d.len() && d.skip(d.len() - reason@.len()) == reason@
        }),
{
    let prefix = "usage request returned HTTP "@;
    if description_text(UsageError::HttpStatus(code1)) == description_text(
        UsageError::HttpStatus(code2),
    ) {
        assert((prefix + decimal(code1 as nat)).skip(prefix.len() as int) =~= decimal(
            code1 as nat,
        ));
        assert((prefix + decimal(code2 as nat)).skip(prefix.len() as int) =~= decimal(
            code2 as nat,
        ));
        crate::text::lemma_decimal_injective(code1 as nat, code2 as nat);
    }
    let d = description_text(UsageError::Network(reason));
    assert(d.skip(d.len() - reason@.len()) =~= reason@);
}

fn text_of(prefix: &str, rest: &str) -> (r: String)
    ensures
        r@ == prefix@ + rest@,
{
    let mut s = String::from_str(prefix);
    s.append(rest);
    s
}

impl UsageError {
    /// The message shown to the user: one of four fixed texts, chosen by the kind
    /// of error alone.
    pub fn user_message(&self) -> (r: String)
        ensures
            r@ == user_message_text(*self),
    {
        match self {
            UsageError::CodexNotDetected(_) => String::from_str("Codex not detected"),
            UsageError::NotLoggedIn | UsageError::AuthRead | UsageError::AuthFormat => {
                String::from_str("Codex is not logged in")
            },
            UsageError::SessionExpired => String::from_str("Codex session expired"),
            UsageError::ProvidersFailed { .. }
            | UsageError::HttpStatus(_)
            | UsageError::Network(_)
            | UsageError::ResponseFormat
            | UsageError::LogDataUnavailable
            | UsageError::LogRead => String::from_str("Unable to refresh Codex usage"),
        }
    }

    /// The full description of the error (what `Display` shows of it).
    pub fn description(&self) -> (r: String)
        ensures
            r@ == description_text(*self),
    {
        match self {
            UsageError::CodexNotDetected(path) => text_of(
                "Codex was not detected at ",
                path.as_str(),
            ),
            UsageError::NotLoggedIn => String::from_str("Codex is not logged in"),
            UsageError::AuthRead => String::from_str("unable to read Codex authentication"),
            UsageError::AuthFormat => String::from_str(
                "Codex authentication data has an unsupported format",
            ),
            UsageError::SessionExpired => String::from_str("Codex session expired"),
            UsageError::HttpStatus(code) => {
                let digits = decimal_string(*code as u64);
                text_of("usage request returned HTTP ", digits.as_str())
            },
            UsageError::Network(reason) => text_of("usage request failed: ", reason.as_str()),
            UsageError::ResponseFormat => String::from_str(
                "usage response has an unsupported format",
            ),
            UsageError::LogDataUnavailable => String::from_str(
                "no usable Codex quota entry was found in local logs",
            ),
            UsageError::LogRead => String::from_str("unable to read Codex logs"),
            UsageError::ProvidersFailed { api, logs } => {
                let mut s = text_of("unable to refresh usage; API: ", api.as_str());
                s.append("; logs: ");
                s.append(logs.as_str());
                s
            },
        }
    }
}

} // verus!
