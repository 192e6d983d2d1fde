//! The destination model: a destination name plus its kind, with the
//! invariant the native representation demands of the name.

use vstd::prelude::*;
use vstd::string::StrSliceExecFns;
use vstd::utf8::decode_utf8;
use vstd::utf8::encode_utf8_decode_utf8;
use vstd::utf8::valid_utf8;

use crate::text::contains_nul;
use crate::text::crossable;
use crate::text::bytes_as_str;

verus! {

/// Native encoding of a topic destination kind.
pub const SOLCLIENT_TOPIC_DESTINATION: i32 = 0;

/// Native encoding of a queue destination kind.
pub const SOLCLIENT_QUEUE_DESTINATION: i32 = 1;

/// Native sentinel kind meaning "no destination": a defined absence, not an
/// error.
pub const SOLCLIENT_NULL_DESTINATION: i32 = -1;

/// The kind of a destination: a topic or a queue.
#[derive(Clone, Copy, Debug, PartialEq, Eq, Structural)]
pub enum DestinationType {
    Topic,
    Queue,
}

/// What `DestinationType::from_raw` returns for a given native kind.
pub open spec fn kind_decoded(raw: i32) -> Option<DestinationType> {
    if raw == SOLCLIENT_TOPIC_DESTINATION {
        Some(DestinationType::Topic)
    } else if raw == SOLCLIENT_QUEUE_DESTINATION {
        Some(DestinationType::Queue)
    } else {
        None
    }
}

impl DestinationType {
    /// The native encoding of this kind.
    pub open spec fn spec_raw(self) -> i32 {
        match self {
            DestinationType::Topic => SOLCLIENT_TOPIC_DESTINATION,
            DestinationType::Queue => SOLCLIENT_QUEUE_DESTINATION,
        }
    }

    /// Encodes this kind for the native layer.
    pub fn to_raw(self) -> (r: i32)
        ensures
            r == self.spec_raw(),
    {
        match self {
            DestinationType::Topic => SOLCLIENT_TOPIC_DESTINATION,
            DestinationType::Queue => SOLCLIENT_QUEUE_DESTINATION,
        }
    }

    /// Decodes a native kind. The null sentinel and unknown kinds decode to
    /// `None`.
    pub fn from_raw(raw: i32) -> (r: Option<DestinationType>)
        ensures
            r == kind_decoded(raw),
    {
        if raw == SOLCLIENT_TOPIC_DESTINATION {
            Some(DestinationType::Topic)
        } else if raw == SOLCLIENT_QUEUE_DESTINATION {
            Some(DestinationType::Queue)
        } else {
            None
        }
    }
}

/// The mathematical value of a destination: its kind and the characters of
/// its name.
#[verifier::ext_equal]
pub struct DestinationModel {
    pub kind: DestinationType,
    pub name: Seq<char>,
}

/// A valid destination name: non-empty and free of embedded null
/// terminators, since the native representation is null-terminated.
pub open spec fn valid_name(name: Seq<char>) -> bool {
    &&& name.len() > 0
    &&& crossable(name)
}

/// A named target a message is published to or received from. Immutable
/// after construction and owned independently of any message.
#[derive(Debug)]
pub struct MessageDestination {
    pub dest_type: DestinationType,
    pub dest: String,
}

impl View for MessageDestination {
    type V = DestinationModel;

    open spec fn view(&self) -> DestinationModel {
        DestinationModel { kind: self.dest_type, name: self.dest@ }
    }
}

/// The error a destination operation can report: the supplied name cannot
/// cross the native boundary.
#[derive(Clone, Copy, Debug, PartialEq, Eq, Structural)]
pub enum DestinationError {
    InvalidName,
}

impl MessageDestination {
    /// The destination's invariant.
    pub open spec fn wf(&self) -> bool {
        valid_name(self@.name)
    }

    /// Builds a destination after validating the name: it must be non-empty
    /// and hold no embedded null terminator.
    pub fn new(dest_type: DestinationType, name: &str) -> (r: Result<
        MessageDestination,
        DestinationError,
    >)
        ensures
            r matches Ok(d) ==> {
                &&& valid_name(name@)
                &&& d@.kind == dest_type
                &&& d@.name == name@
                &&& d.wf()
            },
            r is Err <==> !valid_name(name@),
    {
        if name.unicode_len() == 0 {
            return Err(DestinationError::InvalidName);
        }
        if contains_nul(name) {
            return Err(DestinationError::InvalidName);
        }
        Ok(MessageDestination { dest_type, dest: name.to_owned() })
    }

    /// Rebuilds a destination from what was copied out of a native
    /// destination struct: the raw kind and the bytes of the name buffer.
    /// The null sentinel kind decodes to `None`; an unknown kind, a name
    /// that is not valid UTF-8, and a name violating the invariant decode
    /// to `Err(DestinationError::InvalidName)`.
    pub fn from_native(raw_kind: i32, name_bytes: &[u8]) -> (r: Result<
        Option<MessageDestination>,
        DestinationError,
    >)
        ensures
            r == Ok::<Option<MessageDestination>, DestinationError>(None) <==> raw_kind
                == SOLCLIENT_NULL_DESTINATION,
            r matches Ok(Some(d)) ==> {
                &&& kind_decoded(raw_kind) == Some(d@.kind)
                &&& valid_utf8(name_bytes@)
                &&& d@.name == decode_utf8(name_bytes@)
                &&& d.wf()
            },
            r is Err <==> {
                &&& raw_kind != SOLCLIENT_NULL_DESTINATION
                &&& {
                    ||| kind_decoded(raw_kind) is None
                    ||| !valid_utf8(name_bytes@)
                    ||| !valid_name(decode_utf8(name_bytes@))
                }
            },
    {
        if raw_kind == SOLCLIENT_NULL_DESTINATION {
            return Ok(None);
        }
        let kind = match DestinationType::from_raw(raw_kind) {
            Some(k) => k,
            None => {
                return Err(DestinationError::InvalidName);
            },
        };
        let name = match bytes_as_str(name_bytes) {
            Some(s) => s,
            None => {
                return Err(DestinationError::InvalidName);
            },
        };
        proof {
            encode_utf8_decode_utf8(name@);
        }
        match MessageDestination::new(kind, name) {
            Ok(d) => Ok(Some(d)),
            Err(e) => Err(e),
        }
    }
}

} // verus!
