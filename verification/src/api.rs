use vstd::prelude::*;

use crate::error::UsageError;
use crate::model::CodexUsage;
use crate::text::{clamp_i64, is_blank, is_blank_chars, saturating_add_i64};

verus! {

/// One rate-limit window of the usage API's reply, as whole numbers: the share of
/// the window that is left (the server's used percentage turned into a remaining
/// percentage), the absolute reset time in Unix seconds when the server gave a
/// usable one, and the seconds until reset when it gave a usable count.
#[derive(Debug, Clone, Copy, PartialEq, Eq)]
pub struct UsageWindow {
    pub remaining: u8,
    pub reset_at: Option<i64>,
    pub reset_after_seconds: Option<i64>,
}

/// The rate limits of the usage API's reply: the 5-hour window and the weekly window.
#[derive(Debug, Clone, Copy, PartialEq, Eq)]
pub struct RateLimit {
    pub primary_window: UsageWindow,
    pub secondary_window: UsageWindow,
}

/// When a window resets: its absolute time if the server gave one, else `now` plus
/// the seconds left (saturating), else unknown.
pub open spec fn window_reset(window: UsageWindow, now: i64) -> Option<i64> {
    match window.reset_at {
        Some(at) => Some(at),
        None => match window.reset_after_seconds {
            Some(after) => Some(clamp_i64(now + after) as i64),
            None => None,
        },
    }
}

/// When the window resets; an absolute reset time takes precedence over a relative one.
pub fn reset_at(window: &UsageWindow, now: i64) -> (r: Option<i64>)
    ensures
        r == window_reset(*window, now),
{
    match window.reset_at {
        Some(at) => Some(at),
        None => match window.reset_after_seconds {
            Some(after) => Some(saturating_add_i64(now, after)),
            None => None,
        },
    }
}

/// Whether an HTTP status is a success (200 to 299).
pub open spec fn is_success_status(status: u16) -> bool {
    200 <= status <= 299
}

/// What an HTTP status of the usage API means: 401 and 403 say that the session
/// expired, any other status outside 200..=299 is reported with its code.
pub fn check_status(status: u16) -> (r: Result<(), UsageError>)
    ensures
        status == 401 || status == 403 ==> r == Err::<(), UsageError>(UsageError::SessionExpired),
        status != 401 && status != 403 && !is_success_status(status) ==> r == Err::<
            (),
            UsageError,
        >(UsageError::HttpStatus(status)),
        is_success_status(status) ==> r is Ok,
{
    if status == 401 || status == 403 {
        Err(UsageError::SessionExpired)
    } else if status < 200 || status > 299 {
        Err(UsageError::HttpStatus(status))
    } else {
        Ok(())
    }
}

/// Whether the account id is sent with the usage request: only when it is not blank.
pub fn sends_account_id(account_id: &str) -> (r: bool)
    ensures
        r == !is_blank_chars(account_id@),
{
    !is_blank(account_id)
}

/// Whether `u` is the usage that the API's rate limits report when read at `now`.
pub open spec fn is_api_usage(u: CodexUsage, rate_limit: RateLimit, now: i64) -> bool {
    &&& u.five_hour_remaining == rate_limit.primary_window.remaining
    &&& u.weekly_remaining == rate_limit.secondary_window.remaining
    &&& u.five_hour_reset_at == window_reset(rate_limit.primary_window, now)
    &&& u.weekly_reset_at == window_reset(rate_limit.secondary_window, now)
    &&& u.updated_at == now
    &&& u.source@ == "api"@
    &&& !u.stale
}

/// The usage reported by a successful reply of the usage API, read at `now`.
pub fn usage_from_rate_limit(rate_limit: &RateLimit, now: i64) -> (r: CodexUsage)
    ensures
        is_api_usage(r, *rate_limit, now),
{
    CodexUsage {
        five_hour_remaining: rate_limit.primary_window.remaining,
        weekly_remaining: rate_limit.secondary_window.remaining,
        five_hour_reset_at: reset_at(&rate_limit.primary_window, now),
        weekly_reset_at: reset_at(&rate_limit.secondary_window, now),
        updated_at: now,
        source: String::from_str("api"),
        stale: false,
    }
}

/// The outcome of a reply with a success status: its body read as rate limits, or
/// `None` when the body did not have the expected shape.
pub fn usage_from_reply(body: Option<RateLimit>, now: i64) -> (r: Result<CodexUsage, UsageError>)
    ensures
        body is None ==> r == Err::<CodexUsage, UsageError>(UsageError::ResponseFormat),
        body matches Some(rl) ==> (r matches Ok(u) && is_api_usage(u, rl, now)),
{
    match body {
        Some(rate_limit) => Ok(usage_from_rate_limit(&rate_limit, now)),
        None => Err(UsageError::ResponseFormat),
    }
}

/// How the exchange with the usage API went.
pub enum ApiExchange {
    /// The HTTP client could not be built; the reason as text.
    ClientFailed(String),
    /// The request could not be sent or got no reply; the reason as text.
    SendFailed(String),
    /// The server replied with this status. The body is read as rate limits only
    /// for a success status: `None` when it was not read or did not have the
    /// expected shape.
    Replied(u16, Option<RateLimit>),
}

/// Whether `r` is the outcome of an exchange with the usage API, read at `now`:
/// a failed exchange is a network error with its reason, 401 and 403 say that the
/// session expired, another status outside 200..=299 is reported with its code,
/// and a success gives the usage of its body, or a format error without one.
pub open spec fn is_api_outcome(r: Result<CodexUsage, UsageError>, exchange: ApiExchange, now: i64) -> bool {
    match exchange {
        ApiExchange::ClientFailed(reason) => r == Err::<CodexUsage, UsageError>(
            UsageError::Network(reason),
        ),
        ApiExchange::SendFailed(reason) => r == Err::<CodexUsage, UsageError>(
            UsageError::Network(reason),
        ),
        ApiExchange::Replied(status, body) => if status == 401 || status == 403 {
            r == Err::<CodexUsage, UsageError>(UsageError::SessionExpired)
        } else if !is_success_status(status) {
            r == Err::<CodexUsage, UsageError>(UsageError::HttpStatus(status))
        } else {
            match body {
                Some(rate_limit) => r matches Ok(u) && is_api_usage(u, rate_limit, now),
                None => r == Err::<CodexUsage, UsageError>(UsageError::ResponseFormat),
            }
        },
    }
}

/// The outcome of an exchange with the usage API, read at `now`.
pub fn api_outcome(exchange: ApiExchange, now: i64) -> (r: Result<CodexUsage, UsageError>)
    ensures
        is_api_outcome(r, exchange, now),
{
    match exchange {
        ApiExchange::ClientFailed(reason) => Err(UsageError::Network(reason)),
        ApiExchange::SendFailed(reason) => Err(UsageError::Network(reason)),
        ApiExchange::Replied(status, body) => match check_status(status) {
            Err(error) => Err(error),
            Ok(()) => usage_from_reply(body, now),
        },
    }
}

/// How the API's status decides the outcome, for every status and body: 401 and
/// 403, and only they, mean an expired session; any other status outside 200..=299
/// is reported with its own code; a status in 200..=299 gives a usage exactly when
/// the body was read, and a format error otherwise. A failed exchange is a network
/// error carrying its reason.
pub proof fn lemma_api_status_classes(
    r: Result<CodexUsage, UsageError>,
    exchange: ApiExchange,
    now: i64,
)
    requires
        is_api_outcome(r, exchange, now),
    ensures
        exchange matches ApiExchange::Replied(status, body) ==> {
            &&& (status == 401 || status == 403) ==> r == Err::<CodexUsage, UsageError>(
                UsageError::SessionExpired,
            )
            &&& r == Err::<CodexUsage, UsageError>(UsageError::SessionExpired) ==> (status == 401
                || status == 403)
            &&& (status != 401 && status != 403 && (status < 200 || status > 299)) ==> r == Err::<
                CodexUsage,
                UsageError,
            >(UsageError::HttpStatus(status))
            &&& (200 <= status && status <= 299) ==> (r is Ok <==> body is Some)
            &&& (200 <= status && status <= 299 && body is None) ==> r == Err::<
                CodexUsage,
                UsageError,
            >(UsageError::ResponseFormat)
        },
        exchange matches ApiExchange::SendFailed(reason) ==> r == Err::<CodexUsage, UsageError>(
            UsageError::Network(reason),
        ),
        exchange matches ApiExchange::ClientFailed(reason) ==> r == Err::<CodexUsage, UsageError>(
            UsageError::Network(reason),
        ),
        r matches Ok(u) ==> (exchange matches ApiExchange::Replied(status, Some(rate_limit))
            && u.five_hour_remaining == rate_limit.primary_window.remaining && u.weekly_remaining
            == rate_limit.secondary_window.remaining && u.updated_at == now && !u.stale
            && u.five_hour_reset_at == window_reset(rate_limit.primary_window, now)
            && u.weekly_reset_at == window_reset(rate_limit.secondary_window, now)),
{
}

/// An absolute reset time is taken as it is, whatever the relative count and the
/// time of reading; without one, the reset is the time of reading plus the count
/// (when that fits in an `i64`), and unknown without a count.
pub proof fn lemma_reset_precedence(window: UsageWindow, now1: i64, now2: i64)
    ensures
        window.reset_at matches Some(at) ==> window_reset(window, now1) == Some(at) && window_reset(
            window,
            now2,
        ) == Some(at),
        window.reset_at is None ==> (window.reset_after_seconds matches Some(after) ==> (i64::MIN
            <= now1 + after <= i64::MAX ==> window_reset(window, now1) == Some(
            (now1 + after) as i64,
        ))),
        window.reset_at is None && window.reset_after_seconds is None ==> window_reset(window, now1)
            is None,
{
}

} // verus!
