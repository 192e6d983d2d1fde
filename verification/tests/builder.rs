use solace_rs::message::outbound::MessageBuilderError;
use solace_rs::message::outbound::RequiredField;
use solace_rs::DeliveryMode;
use solace_rs::DestinationType;
use solace_rs::Message;
use solace_rs::MessageDestination;
use solace_rs::OutboundMessageBuilder;

#[test]
fn it_should_build_message() {
    let dest = MessageDestination::new(DestinationType::Topic, "test_topic").unwrap();
    let _builder = OutboundMessageBuilder::new()
        .set_delivery_mode(DeliveryMode::Direct)
        .set_destination(dest)
        .set_binary_string("Hello");
}

#[test]
fn it_should_build_with_same_topic() {
    let dest = MessageDestination::new(DestinationType::Topic, "test_topic").unwrap();
    let message = OutboundMessageBuilder::new()
        .set_delivery_mode(DeliveryMode::Direct)
        .set_destination(dest)
        .set_binary_string("Hello")
        .unwrap()
        .build()
        .unwrap();
    let message_destination = message.get_destination().unwrap().unwrap();

    assert!("test_topic" == message_destination.dest);
}

#[test]
fn it_should_build_with_same_corralation_id() {
    let dest = MessageDestination::new(DestinationType::Topic, "test_topic").unwrap();
    let message = OutboundMessageBuilder::new()
        .set_delivery_mode(DeliveryMode::Direct)
        .set_destination(dest)
        .set_correlation_id("test_correlation")
        .unwrap()
        .set_binary_string("Hello")
        .unwrap()
        .build()
        .unwrap();

    let correlation_id = message.get_correlation_id().unwrap();

    assert!("test_correlation" == correlation_id);
}

#[test]
fn build_without_delivery_mode_reports_it() {
    let dest = MessageDestination::new(DestinationType::Topic, "test_topic").unwrap();
    let r = OutboundMessageBuilder::new()
        .set_destination(dest)
        .set_binary_string("Hello")
        .unwrap()
        .build();
    assert!(matches!(
        r,
        Err(MessageBuilderError::MissingArgs(RequiredField::DeliveryMode))
    ));
}

#[test]
fn build_without_destination_reports_it() {
    let r = OutboundMessageBuilder::new()
        .set_delivery_mode(DeliveryMode::Direct)
        .set_binary_string("Hello")
        .unwrap()
        .build();
    assert!(matches!(
        r,
        Err(MessageBuilderError::MissingArgs(RequiredField::Destination))
    ));
}

#[test]
fn build_without_payload_reports_it() {
    let dest = MessageDestination::new(DestinationType::Queue, "jobs").unwrap();
    let r = OutboundMessageBuilder::new()
        .set_delivery_mode(DeliveryMode::Persistent)
        .set_destination(dest)
        .build();
    assert!(matches!(
        r,
        Err(MessageBuilderError::MissingArgs(RequiredField::Message))
    ));
}

#[test]
fn built_message_reads_back_queue_destination() {
    let dest = MessageDestination::new(DestinationType::Queue, "orders").unwrap();
    let message = OutboundMessageBuilder::new()
        .set_delivery_mode(DeliveryMode::NonPersistent)
        .set_destination(dest)
        .set_binary_string("payload")
        .unwrap()
        .build()
        .unwrap();
    let d = message.get_destination().unwrap().unwrap();
    assert!(d.dest_type == DestinationType::Queue);
    assert!("orders" == d.dest);
}

#[test]
fn payload_reads_back_as_text_and_bytes() {
    let dest = MessageDestination::new(DestinationType::Topic, "test_topic").unwrap();
    let message = OutboundMessageBuilder::new()
        .set_delivery_mode(DeliveryMode::Direct)
        .set_destination(dest)
        .set_binary_string("Hello")
        .unwrap()
        .build()
        .unwrap();
    assert_eq!(message.get_payload_as_str().unwrap(), "Hello");
    assert_eq!(message.get_payload_as_bytes().unwrap(), b"Hello".to_vec());
}

#[test]
fn payload_with_embedded_terminator_is_rejected() {
    let r = OutboundMessageBuilder::new().set_binary_string("He\0llo");
    assert!(matches!(r, Err(MessageBuilderError::InvalidArgs)));
}

#[test]
fn correlation_id_with_embedded_terminator_is_rejected() {
    let r = OutboundMessageBuilder::new().set_correlation_id("bad\0id");
    assert!(matches!(r, Err(MessageBuilderError::InvalidArgs)));
}

#[test]
fn correlation_id_missing_reads_as_failure() {
    let dest = MessageDestination::new(DestinationType::Topic, "test_topic").unwrap();
    let message = OutboundMessageBuilder::new()
        .set_delivery_mode(DeliveryMode::Direct)
        .set_destination(dest)
        .set_binary_string("Hello")
        .unwrap()
        .build()
        .unwrap();
    assert!(message.get_correlation_id().is_err());
}

#[test]
fn default_builder_is_empty() {
    let r = OutboundMessageBuilder::default().build();
    assert!(matches!(
        r,
        Err(MessageBuilderError::MissingArgs(RequiredField::DeliveryMode))
    ));
}

#[test]
fn destroy_issues_native_free_exactly_once() {
    let dest = MessageDestination::new(DestinationType::Topic, "test_topic").unwrap();
    let mut message = OutboundMessageBuilder::new()
        .set_delivery_mode(DeliveryMode::Direct)
        .set_destination(dest)
        .set_binary_string("Hello")
        .unwrap()
        .build()
        .unwrap();
    let mut free_calls: u32 = 0;
    if message.destroy() {
        free_calls += 1;
    }
    if message.destroy() {
        free_calls += 1;
    }
    assert_eq!(free_calls, 1);
}

#[test]
fn deferred_accessors_fail_loudly() {
    let dest = MessageDestination::new(DestinationType::Topic, "test_topic").unwrap();
    let message = OutboundMessageBuilder::new()
        .set_delivery_mode(DeliveryMode::Direct)
        .set_destination(dest)
        .set_binary_string("Hello")
        .unwrap()
        .build()
        .unwrap();
    assert!(message.get_application_message_id().is_err());
    assert!(message.get_application_message_type().is_err());
    assert!(message.get_class_of_service().is_err());
    assert!(message.get_expiration().is_err());
    assert!(message.get_priority().is_err());
    assert!(message.get_sequence_number().is_err());
}
