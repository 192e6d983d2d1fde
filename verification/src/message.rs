//! Messages and their shared read contract: the same accessor surface works
//! on an owned outbound message and on a borrowed inbound view.

pub mod destination;
pub mod inbound;
pub mod outbound;

use vstd::prelude::*;
use vstd::utf8::decode_utf8;
use vstd::utf8::valid_utf8;

use crate::message::destination::DestinationModel;
use crate::message::destination::MessageDestination;

verus! {

/// Native encoding of the fire-and-forget delivery mode.
pub const SOLCLIENT_DELIVERY_MODE_DIRECT: u32 = 0;

/// Native encoding of the guaranteed, persistent delivery mode.
pub const SOLCLIENT_DELIVERY_MODE_PERSISTENT: u32 = 16;

/// Native encoding of the guaranteed, non-persistent delivery mode.
pub const SOLCLIENT_DELIVERY_MODE_NONPERSISTENT: u32 = 32;

/// Native encoding of the lowest class of service.
pub const SOLCLIENT_COS_1: u32 = 0;

/// Native encoding of the middle class of service.
pub const SOLCLIENT_COS_2: u32 = 1;

/// Native encoding of the highest class of service.
pub const SOLCLIENT_COS_3: u32 = 2;

/// The reliability class a message is published with.
#[derive(Clone, Copy, Debug, PartialEq, Eq, Structural)]
pub enum DeliveryMode {
    Direct,
    Persistent,
    NonPersistent,
}

impl DeliveryMode {
    /// The native encoding of this mode.
    pub open spec fn spec_raw(self) -> u32 {
        match self {
            DeliveryMode::Direct => SOLCLIENT_DELIVERY_MODE_DIRECT,
            DeliveryMode::Persistent => SOLCLIENT_DELIVERY_MODE_PERSISTENT,
            DeliveryMode::NonPersistent => SOLCLIENT_DELIVERY_MODE_NONPERSISTENT,
        }
    }

    /// Encodes this mode for the native layer.
    pub fn to_raw(self) -> (r: u32)
        ensures
            r == self.spec_raw(),
    {
        match self {
            DeliveryMode::Direct => SOLCLIENT_DELIVERY_MODE_DIRECT,
            DeliveryMode::Persistent => SOLCLIENT_DELIVERY_MODE_PERSISTENT,
            DeliveryMode::NonPersistent => SOLCLIENT_DELIVERY_MODE_NONPERSISTENT,
        }
    }
}

/// The priority tier attached to a message.
#[derive(Clone, Copy, Debug, PartialEq, Eq, Structural)]
pub enum ClassOfService {
    One,
    Two,
    Three,
}

impl ClassOfService {
    /// The native encoding of this class of service.
    pub open spec fn spec_raw(self) -> u32 {
        match self {
            ClassOfService::One => SOLCLIENT_COS_1,
            ClassOfService::Two => SOLCLIENT_COS_2,
            ClassOfService::Three => SOLCLIENT_COS_3,
        }
    }

    /// Encodes this class of service for the native layer.
    pub fn to_raw(self) -> (r: u32)
        ensures
            r == self.spec_raw(),
    {
        match self {
            ClassOfService::One => SOLCLIENT_COS_1,
            ClassOfService::Two => SOLCLIENT_COS_2,
            ClassOfService::Three => SOLCLIENT_COS_3,
        }
    }
}

/// The errors a message accessor can report. Failing to read a field and
/// failing to interpret its bytes as text stay distinguishable, and an
/// accessor whose native read is not wired up yet fails loudly instead of
/// fabricating a value.
#[derive(Clone, Copy, Debug, PartialEq, Eq, Structural)]
pub enum MessageError {
    ReadFailure,
    EncodingFailure,
    NotImplemented,
}

/// What a read of one message field can observe: the field was never set,
/// the field held a value, or the native layer failed to hand it over.
pub enum FieldRead<T> {
    Absent,
    Value(T),
    Unreadable,
}

/// The result an accessor owes for a byte-valued field: the bytes when they
/// are there, `ReadFailure` when the native layer failed.
pub open spec fn bytes_read_result(read: FieldRead<Seq<u8>>, r: Result<Vec<u8>, MessageError>) -> bool {
    match read {
        FieldRead::Value(b) => r matches Ok(v) && v@ == b,
        _ => r == Err::<Vec<u8>, MessageError>(MessageError::ReadFailure),
    }
}

/// The result an accessor owes for a text field: the decoded text when the
/// bytes are valid UTF-8, `EncodingFailure` when they are not, and
/// `ReadFailure` when the native layer failed or the field was never set.
pub open spec fn text_read_result(read: FieldRead<Seq<u8>>, r: Result<String, MessageError>) -> bool {
    match read {
        FieldRead::Value(b) => {
            if valid_utf8(b) {
                r matches Ok(s) && s@ == decode_utf8(b)
            } else {
                r == Err::<String, MessageError>(MessageError::EncodingFailure)
            }
        },
        _ => r == Err::<String, MessageError>(MessageError::ReadFailure),
    }
}

/// The result an accessor owes for the destination: absence is `Ok(None)`,
/// never an error; a present destination comes back with its kind and name;
/// only a native failure is an error.
pub open spec fn destination_read_result(
    read: FieldRead<DestinationModel>,
    r: Result<Option<MessageDestination>, MessageError>,
) -> bool {
    match read {
        FieldRead::Absent => r == Ok::<Option<MessageDestination>, MessageError>(None),
        FieldRead::Value(m) => r matches Ok(Some(d)) && d@ == m && d.wf(),
        FieldRead::Unreadable => r == Err::<Option<MessageDestination>, MessageError>(
            MessageError::ReadFailure,
        ),
    }
}

/// The shared read contract over a message, whether it is an owned outbound
/// message or a borrowed inbound view. Each accessor either copies what the
/// native layer handed over into an owned value or reports a typed error;
/// none of them fabricates a default.
pub trait Message {
    /// Whether the message may still be read.
    spec fn readable(&self) -> bool;

    /// What a payload read observes on this message.
    spec fn payload_read(&self) -> FieldRead<Seq<u8>>;

    /// What a correlation id read observes on this message.
    spec fn correlation_read(&self) -> FieldRead<Seq<u8>>;

    /// What a destination read observes on this message.
    spec fn destination_read(&self) -> FieldRead<DestinationModel>;

    /// The payload, copied into an owned buffer.
    fn get_payload_as_bytes(&self) -> (r: Result<Vec<u8>, MessageError>)
        requires
            self.readable(),
        ensures
            bytes_read_result(self.payload_read(), r),
    ;

    /// The payload interpreted as UTF-8 text.
    fn get_payload_as_str(&self) -> (r: Result<String, MessageError>)
        requires
            self.readable(),
        ensures
            text_read_result(self.payload_read(), r),
    ;

    /// The correlation id interpreted as UTF-8 text.
    fn get_correlation_id(&self) -> (r: Result<String, MessageError>)
        requires
            self.readable(),
        ensures
            text_read_result(self.correlation_read(), r),
    ;

    /// The destination, when one is set. A message without a destination
    /// yields `Ok(None)`: absence is not an error.
    fn get_destination(&self) -> (r: Result<Option<MessageDestination>, MessageError>)
        requires
            self.readable(),
        ensures
            destination_read_result(self.destination_read(), r),
    ;

    /// The application message id. Not wired to the native layer yet: fails
    /// loudly rather than fabricating a value.
    fn get_application_message_id(&self) -> (r: Result<String, MessageError>)
        ensures
            r == Err::<String, MessageError>(MessageError::NotImplemented),
    ;

    /// The application message type. Not wired to the native layer yet:
    /// fails loudly rather than fabricating a value.
    fn get_application_message_type(&self) -> (r: Result<String, MessageError>)
        ensures
            r == Err::<String, MessageError>(MessageError::NotImplemented),
    ;

    /// The class of service. Not wired to the native layer yet: fails
    /// loudly rather than fabricating a value.
    fn get_class_of_service(&self) -> (r: Result<ClassOfService, MessageError>)
        ensures
            r == Err::<ClassOfService, MessageError>(MessageError::NotImplemented),
    ;

    /// The expiration, in milliseconds since the epoch. Not wired to the
    /// native layer yet: fails loudly rather than fabricating a value.
    fn get_expiration(&self) -> (r: Result<u64, MessageError>)
        ensures
            r == Err::<u64, MessageError>(MessageError::NotImplemented),
    ;

    /// The priority. Not wired to the native layer yet: fails loudly rather
    /// than fabricating a value.
    fn get_priority(&self) -> (r: Result<u8, MessageError>)
        ensures
            r == Err::<u8, MessageError>(MessageError::NotImplemented),
    ;

    /// The sequence number. Not wired to the native layer yet: fails loudly
    /// rather than fabricating a value.
    fn get_sequence_number(&self) -> (r: Result<i64, MessageError>)
        ensures
            r == Err::<i64, MessageError>(MessageError::NotImplemented),
    ;
}

} // verus!
