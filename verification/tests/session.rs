use simple_trainer::btuuid::{FITNESS_MACHINE, INDOOR_BIKE_DATA};
use simple_trainer::error::Error;
use simple_trainer::session::{Session, SessionAction, SessionEvent, SessionPhase};
use simple_trainer::telemetry::TrainerUpdate;

fn new_session() -> Session {
    Session::new(FITNESS_MACHINE, INDOOR_BIKE_DATA)
}

fn listening() -> Session {
    let mut session = new_session();
    assert_eq!(session.step(SessionEvent::Connected), SessionAction::DiscoverServices);
    assert_eq!(
        session.step(SessionEvent::Services(vec![0x1800, 0x180a, FITNESS_MACHINE])),
        SessionAction::DiscoverCharacteristics { service: 2 }
    );
    assert_eq!(
        session.step(SessionEvent::Characteristics(vec![0x2acc, INDOOR_BIKE_DATA, 0x2ad9])),
        SessionAction::Subscribe { characteristic: 1 }
    );
    assert_eq!(
        session.step(SessionEvent::Subscribed),
        SessionAction::Listen { repaint: false }
    );
    session
}

#[test]
fn setup_runs_through_its_four_steps() {
    let session = listening();
    assert_eq!(session.phase, SessionPhase::Listening);
    assert!(session.is_established());
    assert!(!session.is_terminal());
}

#[test]
fn connect_failure_fails_the_attempt() {
    let mut session = new_session();
    assert_eq!(
        session.step(SessionEvent::Failed),
        SessionAction::Fail(Error::ConnectFailure)
    );
    assert_eq!(session.phase, SessionPhase::Failed(Error::ConnectFailure));
    assert!(session.is_terminal());
    assert!(!session.is_established());
}

#[test]
fn missing_service_fails_the_attempt() {
    let mut session = new_session();
    session.step(SessionEvent::Connected);
    assert_eq!(
        session.step(SessionEvent::Services(vec![0x1800, INDOOR_BIKE_DATA])),
        SessionAction::Fail(Error::ServiceNotFound)
    );
    assert_eq!(session.phase, SessionPhase::Failed(Error::ServiceNotFound));
}

#[test]
fn failed_service_enumeration_fails_the_attempt() {
    let mut session = new_session();
    session.step(SessionEvent::Connected);
    assert_eq!(
        session.step(SessionEvent::Failed),
        SessionAction::Fail(Error::ServiceNotFound)
    );
}

#[test]
fn missing_characteristic_fails_the_attempt() {
    let mut session = new_session();
    session.step(SessionEvent::Connected);
    session.step(SessionEvent::Services(vec![FITNESS_MACHINE]));
    assert_eq!(
        session.step(SessionEvent::Characteristics(vec![])),
        SessionAction::Fail(Error::CharacteristicNotFound)
    );
    let mut session = new_session();
    session.step(SessionEvent::Connected);
    session.step(SessionEvent::Services(vec![FITNESS_MACHINE]));
    assert_eq!(
        session.step(SessionEvent::Failed),
        SessionAction::Fail(Error::CharacteristicNotFound)
    );
}

#[test]
fn subscription_failure_fails_the_attempt() {
    let mut session = new_session();
    session.step(SessionEvent::Connected);
    session.step(SessionEvent::Services(vec![FITNESS_MACHINE]));
    session.step(SessionEvent::Characteristics(vec![INDOOR_BIKE_DATA]));
    assert_eq!(
        session.step(SessionEvent::Failed),
        SessionAction::Fail(Error::SubscriptionFailure)
    );
    assert_eq!(session.phase, SessionPhase::Failed(Error::SubscriptionFailure));
}

#[test]
fn failed_attempt_stays_failed() {
    let mut session = new_session();
    session.step(SessionEvent::Failed);
    for event in [
        SessionEvent::Connected,
        SessionEvent::Services(vec![FITNESS_MACHINE]),
        SessionEvent::Subscribed,
        SessionEvent::Notification(vec![0, 0, 1, 0, 2, 0]),
        SessionEvent::StopRequested,
    ] {
        assert_eq!(session.step(event), SessionAction::Fail(Error::ConnectFailure));
    }
    assert_eq!(session.phase, SessionPhase::Failed(Error::ConnectFailure));
}

#[test]
fn notification_is_decoded_and_delivered() {
    let mut session = listening();
    let update = TrainerUpdate::Power { speed: 16, power: 100 };
    assert_eq!(
        session.step(SessionEvent::Notification(vec![0, 0, 0x10, 0x00, 0x64, 0x00])),
        SessionAction::Deliver(update)
    );
    assert_eq!(session.phase, SessionPhase::Delivering(update));
    assert_eq!(
        session.step(SessionEvent::Delivered),
        SessionAction::Listen { repaint: true }
    );
    assert_eq!(session.phase, SessionPhase::Listening);
}

#[test]
fn malformed_payload_is_skipped_and_the_session_goes_on() {
    let mut session = listening();
    assert_eq!(
        session.step(SessionEvent::Notification(vec![0, 0, 0x10])),
        SessionAction::Skip(Error::MalformedPayload)
    );
    assert_eq!(session.phase, SessionPhase::Listening);
    assert_eq!(
        session.step(SessionEvent::Notification(vec![0, 0, 0x10, 0x00, 0x64, 0x00])),
        SessionAction::Deliver(TrainerUpdate::Power { speed: 16, power: 100 })
    );
}

#[test]
fn notification_error_is_passed_over() {
    let mut session = listening();
    assert_eq!(
        session.step(SessionEvent::NotificationError),
        SessionAction::Listen { repaint: false }
    );
    assert_eq!(session.phase, SessionPhase::Listening);
}

#[test]
fn dropped_receiver_closes_the_session() {
    let mut session = listening();
    session.step(SessionEvent::Notification(vec![0, 0, 1, 0, 2, 0]));
    assert_eq!(session.step(SessionEvent::ReceiverGone), SessionAction::Close);
    assert_eq!(session.phase, SessionPhase::Closed);
    assert!(session.is_terminal());
    assert_eq!(
        session.step(SessionEvent::Notification(vec![0, 0, 1, 0, 2, 0])),
        SessionAction::Close
    );
}

#[test]
fn disconnect_closes_the_session() {
    let mut session = listening();
    assert_eq!(session.step(SessionEvent::Disconnected), SessionAction::Close);
    assert_eq!(session.phase, SessionPhase::Closed);
}

#[test]
fn stop_request_closes_a_live_session() {
    let mut session = listening();
    assert_eq!(session.step(SessionEvent::StopRequested), SessionAction::Close);
    assert_eq!(
        session.step(SessionEvent::Notification(vec![0, 0, 1, 0, 2, 0])),
        SessionAction::Close
    );
    let mut early = new_session();
    assert_eq!(early.step(SessionEvent::StopRequested), SessionAction::Close);
    assert_eq!(early.phase, SessionPhase::Closed);
}

#[test]
fn no_delivery_before_setup_is_done() {
    let mut session = new_session();
    assert_eq!(
        session.step(SessionEvent::Notification(vec![0, 0, 1, 0, 2, 0])),
        SessionAction::Connect
    );
    assert_eq!(session.step(SessionEvent::Subscribed), SessionAction::Connect);
    session.step(SessionEvent::Connected);
    assert_eq!(
        session.step(SessionEvent::Characteristics(vec![INDOOR_BIKE_DATA])),
        SessionAction::DiscoverServices
    );
    assert_eq!(
        session.step(SessionEvent::Notification(vec![0, 0, 1, 0, 2, 0])),
        SessionAction::DiscoverServices
    );
}

#[test]
fn first_of_two_matching_services_is_taken() {
    let mut session = new_session();
    session.step(SessionEvent::Connected);
    assert_eq!(
        session.step(SessionEvent::Services(vec![FITNESS_MACHINE, FITNESS_MACHINE])),
        SessionAction::DiscoverCharacteristics { service: 0 }
    );
}

#[test]
fn payloads_are_delivered_in_order() {
    let mut session = listening();
    let payloads: Vec<Vec<u8>> = vec![
        vec![0, 0, 1, 0, 10, 0],
        vec![0, 0],
        vec![0, 0, 2, 0, 20, 0],
        vec![0, 0, 3, 0, 30, 0],
    ];
    let mut delivered = Vec::new();
    for payload in payloads {
        match session.step(SessionEvent::Notification(payload)) {
            SessionAction::Deliver(update) => {
                delivered.push(update);
                assert_eq!(
                    session.step(SessionEvent::Delivered),
                    SessionAction::Listen { repaint: true }
                );
            }
            other => assert_eq!(other, SessionAction::Skip(Error::MalformedPayload)),
        }
    }
    assert_eq!(
        delivered,
        vec![
            TrainerUpdate::Power { speed: 1, power: 10 },
            TrainerUpdate::Power { speed: 2, power: 20 },
            TrainerUpdate::Power { speed: 3, power: 30 },
        ]
    );
}
