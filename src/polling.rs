use crate::model::{AuthServiceError, AuthTokenResponse, TerminalReason};
use vstd::prelude::*;

verus! {

/// A decoded answer of the token endpoint to one poll.
#[derive(Debug, Clone, PartialEq)]
pub enum PollReply {
    /// HTTP 200 with its token set.
    Granted(AuthTokenResponse),
    /// HTTP 400 with the `error` code of its body.
    Rejected(String),
    /// Any other HTTP status.
    Status(u16),
}

/// Which body a token-endpoint answer carries, by its status.
#[derive(Debug, Clone, Copy, PartialEq, Eq, Structural)]
pub enum ReplyBody {
    TokenSet,
    ErrorMessage,
    Nothing,
}

/// What the caller does next while waiting for the user.
#[derive(Debug, Clone, Copy, PartialEq, Eq, Structural)]
pub enum PollAction {
    /// Sleep this many seconds, then send the token poll.
    Poll(u64),
    /// The token set has been recorded in the session.
    Done,
}

/// Seconds to wait before each poll: the grant's interval plus one.
pub open spec fn poll_delay(interval: u64) -> u64 {
    if interval < u64::MAX {
        (interval + 1) as u64
    } else {
        u64::MAX
    }
}

/// The terminal reason that an HTTP 400 error code stands for, if any.
pub open spec fn terminal_reason(code: Seq<char>) -> Option<TerminalReason> {
    if code == "authorization_declined"@ {
        Some(TerminalReason::Declined)
    } else if code == "expired_token"@ {
        Some(TerminalReason::Expired)
    } else if code == "invalid_grant"@ {
        Some(TerminalReason::InvalidGrant)
    } else {
        None
    }
}

/// How one answer ends the wait: `None` while polling goes on.
pub open spec fn poll_outcome(reply: PollReply) -> Option<Result<AuthTokenResponse, AuthServiceError>> {
    match reply {
        PollReply::Granted(tokens) => Some(Ok(tokens)),
        PollReply::Rejected(code) => match terminal_reason(code@) {
            Some(reason) => Some(Err(AuthServiceError::InvalidAccessToken(reason))),
            None => None,
        },
        PollReply::Status(status) => Some(Err(AuthServiceError::UnknownError(status))),
    }
}

/// An HTTP 400 answer with the code `authorization_pending`.
pub open spec fn is_pending(reply: PollReply) -> bool {
    reply matches PollReply::Rejected(code) && code@ == "authorization_pending"@
}

/// The body to decode for an answer with this status.
pub fn reply_body(status: u16) -> (r: ReplyBody)
    ensures
        status == 200 ==> r == ReplyBody::TokenSet,
        status == 400 ==> r == ReplyBody::ErrorMessage,
        status != 200 && status != 400 ==> r == ReplyBody::Nothing,
{
    if status == 200 {
        ReplyBody::TokenSet
    } else if status == 400 {
        ReplyBody::ErrorMessage
    } else {
        ReplyBody::Nothing
    }
}

/// The delay before each poll.
pub fn poll_delay_secs(interval: u64) -> (r: u64)
    ensures
        r == poll_delay(interval),
{
    if interval < u64::MAX {
        interval + 1
    } else {
        u64::MAX
    }
}

/// The terminal reason for an HTTP 400 error code.
pub fn classify_error_code(code: &String) -> (r: Option<TerminalReason>)
    ensures
        r == terminal_reason(code@),
{
    if *code == String::from_str("authorization_declined") {
        Some(TerminalReason::Declined)
    } else if *code == String::from_str("expired_token") {
        Some(TerminalReason::Expired)
    } else if *code == String::from_str("invalid_grant") {
        Some(TerminalReason::InvalidGrant)
    } else {
        None
    }
}

/// Decides whether an answer ends the wait, and how.
pub fn classify_reply(reply: PollReply) -> (r: Option<Result<AuthTokenResponse, AuthServiceError>>)
    ensures
        r == poll_outcome(reply),
{
    match reply {
        PollReply::Granted(tokens) => Some(Ok(tokens)),
        PollReply::Rejected(code) => match classify_error_code(&code) {
            Some(reason) => Some(Err(AuthServiceError::InvalidAccessToken(reason))),
            None => None,
        },
        PollReply::Status(status) => Some(Err(AuthServiceError::UnknownError(status))),
    }
}

/// `authorization_pending` is none of the terminal codes, so a pending
/// answer never ends the wait.
pub proof fn lemma_pending_is_transient(reply: PollReply)
    requires
        is_pending(reply),
    ensures
        poll_outcome(reply) is None,
{
    reveal_strlit("authorization_pending");
    reveal_strlit("authorization_declined");
    reveal_strlit("expired_token");
    reveal_strlit("invalid_grant");
    assert("authorization_pending"@.len() != "authorization_declined"@.len());
    assert("authorization_pending"@.len() != "expired_token"@.len());
    assert("authorization_pending"@.len() != "invalid_grant"@.len());
}

} // verus!
