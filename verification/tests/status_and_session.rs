use solace_rs::message::destination::DestinationError;
use solace_rs::session::check_topic;
use solace_rs::session::publish_outcome;
use solace_rs::session::subscribe_outcome;
use solace_rs::session::unsubscribe_outcome;
use solace_rs::session::SessionError;
use solace_rs::ClassOfService;
use solace_rs::DeliveryMode;
use solace_rs::DestinationType;
use solace_rs::MessageDestination;
use solace_rs::SolClientReturnCode;

#[test]
fn status_codes_decode_to_the_closed_set() {
    assert!(matches!(
        SolClientReturnCode::from_raw(0),
        SolClientReturnCode::Okay
    ));
    assert!(matches!(
        SolClientReturnCode::from_raw(-1),
        SolClientReturnCode::Fail
    ));
    assert!(matches!(
        SolClientReturnCode::from_raw(5),
        SolClientReturnCode::NotFound
    ));
    assert!(matches!(
        SolClientReturnCode::from_raw(2),
        SolClientReturnCode::InProgress
    ));
}

#[test]
fn unknown_status_codes_are_kept_not_coerced() {
    let r = SolClientReturnCode::from_raw(99);
    assert!(matches!(r, SolClientReturnCode::Unknown(99)));
    assert!(!r.is_success());
    assert!(SolClientReturnCode::from_raw(0).is_success());
}

#[test]
fn delivery_mode_native_encodings() {
    assert_eq!(DeliveryMode::Direct.to_raw(), 0);
    assert_eq!(DeliveryMode::Persistent.to_raw(), 16);
    assert_eq!(DeliveryMode::NonPersistent.to_raw(), 32);
}

#[test]
fn class_of_service_native_encodings() {
    assert_eq!(ClassOfService::One.to_raw(), 0);
    assert_eq!(ClassOfService::Two.to_raw(), 1);
    assert_eq!(ClassOfService::Three.to_raw(), 2);
}

#[test]
fn destination_kind_round_trips_through_native_encoding() {
    assert!(matches!(
        DestinationType::from_raw(DestinationType::Topic.to_raw()),
        Some(DestinationType::Topic)
    ));
    assert!(matches!(
        DestinationType::from_raw(DestinationType::Queue.to_raw()),
        Some(DestinationType::Queue)
    ));
    assert!(DestinationType::from_raw(-1).is_none());
    assert!(DestinationType::from_raw(3).is_none());
}

#[test]
fn destination_rejects_invalid_names() {
    assert!(matches!(
        MessageDestination::new(DestinationType::Topic, ""),
        Err(DestinationError::InvalidName)
    ));
    assert!(matches!(
        MessageDestination::new(DestinationType::Topic, "te\0st"),
        Err(DestinationError::InvalidName)
    ));
    let d = MessageDestination::new(DestinationType::Queue, "jobs").unwrap();
    assert!(d.dest_type == DestinationType::Queue);
    assert!("jobs" == d.dest);
}

#[test]
fn destination_from_native_copies_the_name_out() {
    let d = MessageDestination::from_native(0, b"events")
        .unwrap()
        .unwrap();
    assert!(d.dest_type == DestinationType::Topic);
    assert!("events" == d.dest);
    assert!(MessageDestination::from_native(-1, b"ignored")
        .unwrap()
        .is_none());
    assert!(MessageDestination::from_native(9, b"events").is_err());
    assert!(MessageDestination::from_native(0, &[0xff]).is_err());
}

#[test]
fn topic_with_embedded_terminator_is_rejected() {
    assert!(matches!(
        check_topic("bad\0topic"),
        Err(SessionError::InvalidArgs)
    ));
    assert!(check_topic("good/topic").is_ok());
}

#[test]
fn subscription_outcomes_carry_the_topic() {
    assert!(subscribe_outcome("t/1", 0).is_ok());
    match subscribe_outcome("t/1", -1) {
        Err(SessionError::SubscriptionFailure(t)) => assert_eq!(t, "t/1"),
        _ => panic!("expected a subscription failure"),
    }
    assert!(unsubscribe_outcome("t/1", 0).is_ok());
    match unsubscribe_outcome("t/1", 2) {
        Err(SessionError::UnsubscriptionFailure(t)) => assert_eq!(t, "t/1"),
        _ => panic!("expected an unsubscription failure"),
    }
}

#[test]
fn publish_outcome_surfaces_send_failures() {
    assert!(publish_outcome(0).is_ok());
    assert!(matches!(
        publish_outcome(-1),
        Err(SessionError::PublishFailure)
    ));
}
