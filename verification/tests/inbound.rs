use solace_rs::message::inbound::NativeMessageReads;
use solace_rs::message::MessageError;
use solace_rs::DestinationType;
use solace_rs::InboundMessage;
use solace_rs::Message;

fn reads() -> NativeMessageReads {
    NativeMessageReads {
        payload_status: 0,
        payload_bytes: b"Hello".to_vec(),
        correlation_status: 0,
        correlation_bytes: b"test_correlation".to_vec(),
        destination_status: 0,
        destination_kind: 0,
        destination_name: b"test_topic".to_vec(),
    }
}

#[test]
fn inbound_fields_decode() {
    let m = InboundMessage::from_native_reads(reads());
    assert_eq!(m.get_payload_as_bytes().unwrap(), b"Hello".to_vec());
    assert_eq!(m.get_payload_as_str().unwrap(), "Hello");
    assert_eq!(m.get_correlation_id().unwrap(), "test_correlation");
    let d = m.get_destination().unwrap().unwrap();
    assert!(d.dest_type == DestinationType::Topic);
    assert!("test_topic" == d.dest);
}

#[test]
fn absent_destination_is_not_an_error() {
    let mut r = reads();
    r.destination_status = 5;
    let m = InboundMessage::from_native_reads(r);
    assert!(matches!(m.get_destination(), Ok(None)));
}

#[test]
fn null_destination_sentinel_is_absence() {
    let mut r = reads();
    r.destination_kind = -1;
    let m = InboundMessage::from_native_reads(r);
    assert!(matches!(m.get_destination(), Ok(None)));
}

#[test]
fn failed_destination_read_is_an_error() {
    let mut r = reads();
    r.destination_status = -1;
    let m = InboundMessage::from_native_reads(r);
    assert!(matches!(m.get_destination(), Err(MessageError::ReadFailure)));
}

#[test]
fn unknown_destination_kind_is_an_error() {
    let mut r = reads();
    r.destination_kind = 7;
    let m = InboundMessage::from_native_reads(r);
    assert!(matches!(m.get_destination(), Err(MessageError::ReadFailure)));
}

#[test]
fn empty_destination_name_is_an_error() {
    let mut r = reads();
    r.destination_name = Vec::new();
    let m = InboundMessage::from_native_reads(r);
    assert!(matches!(m.get_destination(), Err(MessageError::ReadFailure)));
}

#[test]
fn queue_destination_kind_decodes() {
    let mut r = reads();
    r.destination_kind = 1;
    let m = InboundMessage::from_native_reads(r);
    let d = m.get_destination().unwrap().unwrap();
    assert!(d.dest_type == DestinationType::Queue);
}

#[test]
fn failed_payload_read_is_distinct_from_bad_encoding() {
    let mut r = reads();
    r.payload_status = -1;
    let m = InboundMessage::from_native_reads(r);
    assert!(matches!(
        m.get_payload_as_bytes(),
        Err(MessageError::ReadFailure)
    ));
    assert!(matches!(
        m.get_payload_as_str(),
        Err(MessageError::ReadFailure)
    ));

    let mut r2 = reads();
    r2.payload_bytes = vec![0xff, 0xfe];
    let m2 = InboundMessage::from_native_reads(r2);
    assert_eq!(m2.get_payload_as_bytes().unwrap(), vec![0xff, 0xfe]);
    assert!(matches!(
        m2.get_payload_as_str(),
        Err(MessageError::EncodingFailure)
    ));
}

#[test]
fn bad_correlation_encoding_is_reported() {
    let mut r = reads();
    r.correlation_bytes = vec![0xc3, 0x28];
    let m = InboundMessage::from_native_reads(r);
    assert!(matches!(
        m.get_correlation_id(),
        Err(MessageError::EncodingFailure)
    ));
}

#[test]
fn failed_correlation_read_is_reported() {
    let mut r = reads();
    r.correlation_status = 5;
    let m = InboundMessage::from_native_reads(r);
    assert!(matches!(
        m.get_correlation_id(),
        Err(MessageError::ReadFailure)
    ));
}
