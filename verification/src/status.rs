//! Translation of native integer status codes into a closed set of typed
//! outcomes. Every other component funnels native results through this
//! module before trusting anything a native call wrote.

use vstd::prelude::*;

verus! {

/// Native status code for a call that succeeded.
pub const SOLCLIENT_OK: i32 = 0;

/// Native status code for a call that failed.
pub const SOLCLIENT_FAIL: i32 = -1;

/// Native status code for a lookup that found nothing.
pub const SOLCLIENT_NOT_FOUND: i32 = 5;

/// Native status code for an operation that is still in progress.
pub const SOLCLIENT_IN_PROGRESS: i32 = 2;

/// The typed outcome of a native call. A code outside the known set is kept
/// as `Unknown` and must be treated as a failure, never coerced to success.
#[derive(Clone, Copy, Debug, PartialEq, Eq, Structural)]
pub enum SolClientReturnCode {
    Okay,
    Fail,
    NotFound,
    InProgress,
    Unknown(i32),
}

/// What `SolClientReturnCode::from_raw` returns for a given code.
pub open spec fn decoded(code: i32) -> SolClientReturnCode {
    if code == SOLCLIENT_OK {
        SolClientReturnCode::Okay
    } else if code == SOLCLIENT_FAIL {
        SolClientReturnCode::Fail
    } else if code == SOLCLIENT_NOT_FOUND {
        SolClientReturnCode::NotFound
    } else if code == SOLCLIENT_IN_PROGRESS {
        SolClientReturnCode::InProgress
    } else {
        SolClientReturnCode::Unknown(code)
    }
}

/// Whether a raw native code reports success.
pub open spec fn raw_is_ok(code: i32) -> bool {
    code == SOLCLIENT_OK
}

impl SolClientReturnCode {
    /// Decodes a native integer status into the closed set of outcomes.
    /// This is a pure mapping with no side effect.
    pub fn from_raw(code: i32) -> (r: SolClientReturnCode)
        ensures
            r == decoded(code),
            r is Okay <==> raw_is_ok(code),
    {
        if code == SOLCLIENT_OK {
            SolClientReturnCode::Okay
        } else if code == SOLCLIENT_FAIL {
            SolClientReturnCode::Fail
        } else if code == SOLCLIENT_NOT_FOUND {
            SolClientReturnCode::NotFound
        } else if code == SOLCLIENT_IN_PROGRESS {
            SolClientReturnCode::InProgress
        } else {
            SolClientReturnCode::Unknown(code)
        }
    }

    /// Whether this outcome reports success.
    pub fn is_success(&self) -> (r: bool)
        ensures
            r == (*self is Okay),
    {
        match self {
            SolClientReturnCode::Okay => true,
            _ => false,
        }
    }
}

} // verus!
