//! The decisions a session makes around its native calls: validating topic
//! text before it crosses the boundary, and mapping the status a native
//! send, subscribe or unsubscribe returned into a typed outcome. The native
//! session handle itself lives with the embedding; every choice about what
//! its calls mean is made here.

use vstd::prelude::*;

use crate::status::raw_is_ok;
use crate::text::contains_nul;
use crate::text::crossable;

verus! {

/// The errors a session operation can report. A failed subscription carries
/// the offending topic so the caller can diagnose it without native tools.
#[derive(Debug)]
pub enum SessionError {
    /// The topic text cannot cross the native boundary.
    InvalidArgs,
    /// The native subscribe call reported a non-success status.
    SubscriptionFailure(String),
    /// The native unsubscribe call reported a non-success status.
    UnsubscriptionFailure(String),
    /// The native send call reported a non-success status. Surfaced as a
    /// recoverable error rather than escalated, since a send can fail under
    /// backpressure or disconnect.
    PublishFailure,
}

/// Validates topic text before it is handed to the native layer: text with
/// an embedded null terminator is rejected with `InvalidArgs`, and no
/// native call may be applied to it.
pub fn check_topic(topic: &str) -> (r: Result<(), SessionError>)
    ensures
        r is Ok <==> crossable(topic@),
        !crossable(topic@) ==> r matches Err(SessionError::InvalidArgs),
{
    if contains_nul(topic) {
        Err(SessionError::InvalidArgs)
    } else {
        Ok(())
    }
}

/// Decides what a native subscribe call's status means: success, or a
/// `SubscriptionFailure` carrying the topic.
pub fn subscribe_outcome(topic: &str, status: i32) -> (r: Result<(), SessionError>)
    ensures
        r is Ok <==> raw_is_ok(status),
        !raw_is_ok(status) ==> (r matches Err(SessionError::SubscriptionFailure(t)) && t@
            == topic@),
{
    if status == crate::status::SOLCLIENT_OK {
        Ok(())
    } else {
        Err(SessionError::SubscriptionFailure(topic.to_owned()))
    }
}

/// Decides what a native unsubscribe call's status means: success, or an
/// `UnsubscriptionFailure` carrying the topic.
pub fn unsubscribe_outcome(topic: &str, status: i32) -> (r: Result<(), SessionError>)
    ensures
        r is Ok <==> raw_is_ok(status),
        !raw_is_ok(status) ==> (r matches Err(SessionError::UnsubscriptionFailure(t)) && t@
            == topic@),
{
    if status == crate::status::SOLCLIENT_OK {
        Ok(())
    } else {
        Err(SessionError::UnsubscriptionFailure(topic.to_owned()))
    }
}

/// Decides what a native send call's status means: success, or a
/// recoverable `PublishFailure`.
pub fn publish_outcome(status: i32) -> (r: Result<(), SessionError>)
    ensures
        r is Ok <==> raw_is_ok(status),
        !raw_is_ok(status) ==> r matches Err(SessionError::PublishFailure),
{
    if status == crate::status::SOLCLIENT_OK {
        Ok(())
    } else {
        Err(SessionError::PublishFailure)
    }
}

} // verus!
