use vstd::prelude::*;

use crate::error::UsageError;
use crate::text::{is_blank, is_blank_chars};

verus! {

/// The credentials of the signed-in account. They are kept in memory only and
/// appear in no output of the library.
pub struct CodexAuth {
    pub access_token: String,
    pub account_id: String,
}

/// What reading the account's `auth.json` found.
pub enum AuthFile {
    /// There is no such file.
    Missing,
    /// The file exists but could not be read.
    Unreadable,
    /// The file was read but does not hold `tokens.access_token`.
    Malformed,
    /// The file's tokens; `account_id` is empty when the file has none.
    Tokens { access_token: String, account_id: String },
}

/// Why an `auth.json` yields no credentials, or `None` when it yields them: a
/// missing file or a blank access token means that no one is signed in.
pub open spec fn auth_error(file: AuthFile) -> Option<UsageError> {
    match file {
        AuthFile::Missing => Some(UsageError::NotLoggedIn),
        AuthFile::Unreadable => Some(UsageError::AuthRead),
        AuthFile::Malformed => Some(UsageError::AuthFormat),
        AuthFile::Tokens { access_token, account_id } => if is_blank_chars(access_token@) {
            Some(UsageError::NotLoggedIn)
        } else {
            None
        },
    }
}

/// Whether `r` is what an `auth.json` yields: its error, or its tokens as credentials.
pub open spec fn is_auth_outcome(r: Result<CodexAuth, UsageError>, file: AuthFile) -> bool {
    match auth_error(file) {
        Some(e) => r == Err::<CodexAuth, UsageError>(e),
        None => file matches AuthFile::Tokens { access_token, account_id } && r matches Ok(auth)
            && auth.access_token == access_token && auth.account_id == account_id,
    }
}

/// The credentials that an `auth.json` yields, or why it yields none: a missing file
/// or a blank access token means that no one is signed in.
pub fn resolve_auth(file: AuthFile) -> (r: Result<CodexAuth, UsageError>)
    ensures
        is_auth_outcome(r, file),
{
    match file {
        AuthFile::Missing => Err(UsageError::NotLoggedIn),
        AuthFile::Unreadable => Err(UsageError::AuthRead),
        AuthFile::Malformed => Err(UsageError::AuthFormat),
        AuthFile::Tokens { access_token, account_id } => {
            if is_blank(access_token.as_str()) {
                Err(UsageError::NotLoggedIn)
            } else {
                Ok(CodexAuth { access_token, account_id })
            }
        },
    }
}

/// What each kind of `auth.json` yields: no file means not signed in, an unreadable
/// file a read error, a malformed one a format error; tokens give credentials,
/// carrying the same token and account id, exactly when the token is not blank,
/// and a blank token means not signed in.
pub proof fn lemma_auth_outcomes(r: Result<CodexAuth, UsageError>, file: AuthFile)
    requires
        is_auth_outcome(r, file),
    ensures
        file is Missing ==> r == Err::<CodexAuth, UsageError>(UsageError::NotLoggedIn),
        r == Err::<CodexAuth, UsageError>(UsageError::AuthRead) <==> file is Unreadable,
        r == Err::<CodexAuth, UsageError>(UsageError::AuthFormat) <==> file is Malformed,
        r is Ok <==> (file matches AuthFile::Tokens { access_token, .. } && !is_blank_chars(
            access_token@,
        )),
        file matches AuthFile::Tokens { access_token, account_id } ==> (r matches Ok(auth)
            ==> auth.access_token == access_token && auth.account_id == account_id),
        file matches AuthFile::Tokens { access_token, .. } ==> (is_blank_chars(access_token@)
            ==> r == Err::<CodexAuth, UsageError>(UsageError::NotLoggedIn)),
{
}

} // verus!
