//! The inbound view over a message handle this layer does not own. The
//! handle is borrowed from a delivery callback, so every field is copied out
//! of the native buffers while the borrow lasts; nothing here frees the
//! handle or retains a native pointer.

use vstd::prelude::*;
use vstd::slice::slice_to_vec;
use vstd::utf8::decode_utf8;
use vstd::utf8::encode_utf8_decode_utf8;
use vstd::utf8::valid_utf8;

use crate::message::destination::kind_decoded;
use crate::message::destination::valid_name;
use crate::message::destination::DestinationModel;
use crate::message::destination::MessageDestination;
use crate::message::destination::SOLCLIENT_NULL_DESTINATION;
use crate::message::ClassOfService;
use crate::message::FieldRead;
use crate::message::Message;
use crate::message::MessageError;
use crate::message::text_read_result;
use crate::status::raw_is_ok;
use crate::status::SOLCLIENT_NOT_FOUND;
use crate::text::bytes_as_str;

verus! {

/// What one native field read handed back: the status code the native call
/// returned, and the bytes copied out of the buffer it filled. The bytes
/// are trusted only when the status, checked through the translator, says
/// the call succeeded.
pub open spec fn bytes_field_read(status: i32, bytes: Seq<u8>) -> FieldRead<Seq<u8>> {
    if raw_is_ok(status) {
        FieldRead::Value(bytes)
    } else {
        FieldRead::Unreadable
    }
}

/// What a native destination read handed back. A "not found" status and the
/// null-destination sentinel kind both mean the defined absence of a
/// destination; any other non-success status, an unknown kind, or a name
/// that cannot be represented mean the read cannot be trusted.
pub open spec fn destination_field_read(status: i32, kind: i32, name: Seq<u8>) -> FieldRead<
    DestinationModel,
> {
    if status == SOLCLIENT_NOT_FOUND {
        FieldRead::Absent
    } else if !raw_is_ok(status) {
        FieldRead::Unreadable
    } else if kind == SOLCLIENT_NULL_DESTINATION {
        FieldRead::Absent
    } else if kind_decoded(kind) is None || !valid_utf8(name) || !valid_name(decode_utf8(name)) {
        FieldRead::Unreadable
    } else {
        FieldRead::Value(
            DestinationModel { kind: kind_decoded(kind)->0, name: decode_utf8(name) },
        )
    }
}

/// The raw outcome of the native field reads made while an inbound handle
/// was borrowed: for each field, the status code of the native getter and a
/// copy of the bytes it exposed.
pub struct NativeMessageReads {
    pub payload_status: i32,
    pub payload_bytes: Vec<u8>,
    pub correlation_status: i32,
    pub correlation_bytes: Vec<u8>,
    pub destination_status: i32,
    pub destination_kind: i32,
    pub destination_name: Vec<u8>,
}

/// A read-only message received from the native layer. It owns copies of
/// the field reads, never the native handle, and so never triggers a free.
pub struct InboundMessage {
    reads: NativeMessageReads,
}

impl InboundMessage {
    /// Wraps the field reads copied out of a borrowed native handle.
    pub fn from_native_reads(reads: NativeMessageReads) -> (r: InboundMessage)
        ensures
            r.payload_read() == bytes_field_read(reads.payload_status, reads.payload_bytes@),
            r.correlation_read() == bytes_field_read(
                reads.correlation_status,
                reads.correlation_bytes@,
            ),
            r.destination_read() == destination_field_read(
                reads.destination_status,
                reads.destination_kind,
                reads.destination_name@,
            ),
    {
        InboundMessage { reads }
    }
}

/// Decodes one text-valued field read: the status decides whether the bytes
/// may be trusted, and the bytes must then be valid UTF-8.
fn read_text(status: i32, bytes: &Vec<u8>) -> (r: Result<String, MessageError>)
    ensures
        text_read_result(bytes_field_read(status, bytes@), r),
{
    if status != crate::status::SOLCLIENT_OK {
        return Err(MessageError::ReadFailure);
    }
    match bytes_as_str(bytes.as_slice()) {
        Some(s) => {
            proof {
                encode_utf8_decode_utf8(s@);
            }
            Ok(s.to_owned())
        },
        None => Err(MessageError::EncodingFailure),
    }
}

impl Message for InboundMessage {
    open spec fn readable(&self) -> bool {
        true
    }

    closed spec fn payload_read(&self) -> FieldRead<Seq<u8>> {
        bytes_field_read(self.reads.payload_status, self.reads.payload_bytes@)
    }

    closed spec fn correlation_read(&self) -> FieldRead<Seq<u8>> {
        bytes_field_read(self.reads.correlation_status, self.reads.correlation_bytes@)
    }

    closed spec fn destination_read(&self) -> FieldRead<DestinationModel> {
        destination_field_read(
            self.reads.destination_status,
            self.reads.destination_kind,
            self.reads.destination_name@,
        )
    }

    fn get_payload_as_bytes(&self) -> (r: Result<Vec<u8>, MessageError>) {
        if self.reads.payload_status != crate::status::SOLCLIENT_OK {
            return Err(MessageError::ReadFailure);
        }
        Ok(slice_to_vec(self.reads.payload_bytes.as_slice()))
    }

    fn get_payload_as_str(&self) -> (r: Result<String, MessageError>) {
        read_text(self.reads.payload_status, &self.reads.payload_bytes)
    }

    fn get_correlation_id(&self) -> (r: Result<String, MessageError>) {
        read_text(self.reads.correlation_status, &self.reads.correlation_bytes)
    }

    fn get_destination(&self) -> (r: Result<Option<MessageDestination>, MessageError>) {
        if self.reads.destination_status == SOLCLIENT_NOT_FOUND {
            return Ok(None);
        }
        if self.reads.destination_status != crate::status::SOLCLIENT_OK {
            return Err(MessageError::ReadFailure);
        }
        match MessageDestination::from_native(
            self.reads.destination_kind,
            self.reads.destination_name.as_slice(),
        ) {
            Ok(Some(d)) => {
                proof {
                    assert(d@ =~= DestinationModel {
                        kind: kind_decoded(self.reads.destination_kind).unwrap(),
                        name: decode_utf8(self.reads.destination_name@),
                    });
                }
                Ok(Some(d))
            },
            Ok(None) => Ok(None),
            Err(_) => Err(MessageError::ReadFailure),
        }
    }

    fn get_application_message_id(&self) -> (r: Result<String, MessageError>) {
        Err(MessageError::NotImplemented)
    }

    fn get_application_message_type(&self) -> (r: Result<String, MessageError>) {
        Err(MessageError::NotImplemented)
    }

    fn get_class_of_service(&self) -> (r: Result<ClassOfService, MessageError>) {
        Err(MessageError::NotImplemented)
    }

    fn get_expiration(&self) -> (r: Result<u64, MessageError>) {
        Err(MessageError::NotImplemented)
    }

    fn get_priority(&self) -> (r: Result<u8, MessageError>) {
        Err(MessageError::NotImplemented)
    }

    fn get_sequence_number(&self) -> (r: Result<i64, MessageError>) {
        Err(MessageError::NotImplemented)
    }
}

} // verus!
