use vstd::prelude::*;

use std::path::PathBuf;

use crate::api::{is_api_outcome, ApiExchange};
use crate::auth::{auth_error, is_auth_outcome, AuthFile, CodexAuth};
use crate::error::{description_text, is_auth_error, user_message_text, UsageError};
use crate::text::is_blank_chars;
use crate::model::CodexUsage;

verus! {

/// `std::path::PathBuf`, carried through as an opaque value.
#[verifier::external_type_specification]
#[verifier::external_body]
pub struct ExPathBuf(PathBuf);

/// Reads the quota of the account signed in under a Codex home directory: the usage
/// API first, the local request logs when the API gives no answer.
pub struct UsageService {
    codex_home: PathBuf,
}

/// What to do once the usage API has answered.
pub enum ApiStep {
    /// The API reported the usage; nothing more to do.
    Done(CodexUsage),
    /// The API failed with this error; the logs are consulted next.
    ConsultLogs(UsageError),
}

/// Whether `r` is the final outcome once the logs were consulted after the API
/// failed with `api_error`: the logs' usage if they had one; otherwise a sign-in
/// problem or an expired session is reported as the API found it, and anything else
/// as the failure of both sources, each described in full.
pub open spec fn is_fallback_outcome(
    r: Result<CodexUsage, UsageError>,
    api_error: UsageError,
    logs: Result<CodexUsage, UsageError>,
) -> bool {
    match logs {
        Ok(usage) => r == Ok::<CodexUsage, UsageError>(usage),
        Err(log_error) => if is_auth_error(api_error) || api_error is SessionExpired {
            r == Err::<CodexUsage, UsageError>(api_error)
        } else {
            r matches Err(UsageError::ProvidersFailed { api, logs }) && api@ == description_text(
                api_error,
            ) && logs@ == description_text(log_error)
        },
    }
}

impl UsageService {
    /// The Codex home directory this service reads under.
    pub closed spec fn home(&self) -> PathBuf {
        self.codex_home
    }

    /// A service for the Codex home directory `codex_home`.
    pub fn new(codex_home: PathBuf) -> (r: UsageService)
        ensures
            r.home() == codex_home,
    {
        UsageService { codex_home }
    }

    /// The Codex home directory this service reads under.
    pub fn codex_home(&self) -> (r: &PathBuf)
        ensures
            *r == self.home(),
    {
        &self.codex_home
    }

    /// What follows the usage API's answer: its usage ends the refresh, its error
    /// sends the refresh on to the logs.
    pub fn after_api(api: Result<CodexUsage, UsageError>) -> (r: ApiStep)
        ensures
            api matches Ok(u) ==> r == ApiStep::Done(u),
            api matches Err(e) ==> r == ApiStep::ConsultLogs(e),
    {
        match api {
            Ok(usage) => ApiStep::Done(usage),
            Err(error) => ApiStep::ConsultLogs(error),
        }
    }

    /// The outcome of a refresh whose API step failed with `api_error` and whose log
    /// step gave `logs`.
    pub fn after_logs(api_error: UsageError, logs: Result<CodexUsage, UsageError>) -> (r: Result<
        CodexUsage,
        UsageError,
    >)
        ensures
            is_fallback_outcome(r, api_error, logs),
    {
        match logs {
            Ok(usage) => Ok(usage),
            Err(log_error) => {
                match api_error {
                    UsageError::NotLoggedIn
                    | UsageError::AuthRead
                    | UsageError::AuthFormat
                    | UsageError::SessionExpired => Err(api_error),
                    _ => {
                        let api = api_error.description();
                        let logs = log_error.description();
                        Err(UsageError::ProvidersFailed { api, logs })
                    },
                }
            },
        }
    }
}

/// When both sources fail, the user is told of a sign-in problem if the API found
/// one, of an expired session if the API found that, and otherwise that the usage
/// could not be refreshed, whatever the logs' error was.
pub proof fn lemma_failure_message(
    r: Result<CodexUsage, UsageError>,
    api_error: UsageError,
    log_error: UsageError,
)
    requires
        is_fallback_outcome(r, api_error, Err(log_error)),
    ensures
        r matches Err(e) && user_message_text(e) == if is_auth_error(api_error) {
            "Codex is not logged in"@
        } else if api_error is SessionExpired {
            "Codex session expired"@
        } else {
            "Unable to refresh Codex usage"@
        },
        (api_error is NotLoggedIn || api_error is AuthRead || api_error is AuthFormat
            || api_error is SessionExpired) ==> r == Err::<CodexUsage, UsageError>(api_error),
        !(api_error is NotLoggedIn || api_error is AuthRead || api_error is AuthFormat
            || api_error is SessionExpired) ==> (r matches Err(UsageError::ProvidersFailed { api, logs })
            && api@ == description_text(api_error) && logs@ == description_text(log_error)),
{
}

/// A usage that either source reports is never turned into an error: the API's
/// usage ends the refresh, and the logs' usage is the outcome after a failed API.
pub proof fn lemma_usage_is_kept(
    api_error: UsageError,
    usage: CodexUsage,
    r: Result<CodexUsage, UsageError>,
)
    requires
        is_fallback_outcome(r, api_error, Ok(usage)),
    ensures
        r == Ok::<CodexUsage, UsageError>(usage),
{
}

/// Whether `r` is the outcome of a whole refresh: the credentials of `file`, then
/// (when there are some) the exchange with the usage API read at `now`, then, when
/// that gave no usage, the logs' outcome `logs`.
pub open spec fn is_refresh_outcome(
    r: Result<CodexUsage, UsageError>,
    file: AuthFile,
    exchange: ApiExchange,
    now: i64,
    logs: Result<CodexUsage, UsageError>,
) -> bool {
    match auth_error(file) {
        Some(e) => is_fallback_outcome(r, e, logs),
        None => exists|api: Result<CodexUsage, UsageError>|
            #[trigger] is_api_outcome(api, exchange, now) && match api {
                Ok(u) => r == Ok::<CodexUsage, UsageError>(u),
                Err(e) => is_fallback_outcome(r, e, logs),
            },
    }
}

/// The steps of a refresh, run one after the other as the program runs them
/// (`resolve_auth`, `api_outcome` when signed in, `after_api`, `after_logs` when the
/// API gave no usage), give the outcome of a whole refresh.
pub proof fn lemma_refresh_steps(
    file: AuthFile,
    auth: Result<CodexAuth, UsageError>,
    exchange: ApiExchange,
    now: i64,
    api: Result<CodexUsage, UsageError>,
    logs: Result<CodexUsage, UsageError>,
    r: Result<CodexUsage, UsageError>,
)
    requires
        is_auth_outcome(auth, file),
        auth matches Err(e) ==> api == Err::<CodexUsage, UsageError>(e),
        auth is Ok ==> is_api_outcome(api, exchange, now),
        api matches Ok(u) ==> r == Ok::<CodexUsage, UsageError>(u),
        api matches Err(e) ==> is_fallback_outcome(r, e, logs),
    ensures
        is_refresh_outcome(r, file, exchange, now, logs),
{
    if auth_error(file) is None {
        assert(is_api_outcome(api, exchange, now));
    }
}

/// The access token plays no part in what a refresh reports: for two `auth.json`
/// files that differ only in their (non-blank) access tokens, with the same exchange
/// with the API, the same clock and the same logs, exactly the same outcomes are
/// possible, usages and errors alike (and so the same descriptions and messages).
pub proof fn lemma_outcome_ignores_access_token(
    token1: String,
    token2: String,
    account_id: String,
    exchange: ApiExchange,
    now: i64,
    logs: Result<CodexUsage, UsageError>,
    r: Result<CodexUsage, UsageError>,
)
    requires
        !is_blank_chars(token1@),
        !is_blank_chars(token2@),
    ensures
        is_refresh_outcome(
            r,
            (AuthFile::Tokens { access_token: token1, account_id }),
            exchange,
            now,
            logs,
        ) <==> is_refresh_outcome(
            r,
            (AuthFile::Tokens { access_token: token2, account_id }),
            exchange,
            now,
            logs,
        ),
{
}

} // verus!
