use simple_trainer::btuuid::{FITNESS_MACHINE, INDOOR_BIKE_DATA};
use simple_trainer::channel::{Polled, CHANNEL_CAPACITY};
use simple_trainer::consumer::{
    display_name, Consumer, DiscoveryControl, DiscoveryEnds, Found, Screen, SessionEnds,
};
use simple_trainer::discovery::{DiscoveryAction, DiscoveryEvent};
use simple_trainer::error::Error;
use simple_trainer::session::{SessionAction, SessionEvent};
use simple_trainer::telemetry::TrainerUpdate;
use simple_trainer::trainer::BT;
use tokio::sync::mpsc::error::TrySendError;
use tokio::sync::oneshot::error::TryRecvError;

fn found(name: &str, device: u32) -> Result<Found<u32>, Error> {
    Ok(Found { name: Some(String::from(name)), device })
}

fn with_device(name: &str, device: u32) -> Consumer<u32> {
    let mut consumer = Consumer::new();
    consumer.on_device(Polled::Item(found(name, device)));
    consumer
}

fn connected(name: &str) -> (Consumer<u32>, SessionEnds) {
    let mut consumer = with_device(name, 1);
    let SessionEnds { ready, updates, stop } = consumer.connect(name).ok().unwrap();
    let (spent, _) = tokio::sync::oneshot::channel();
    assert!(ready.send(Ok(())).is_ok());
    consumer.update_discovery();
    assert_eq!(consumer.screen(), Screen::Connected);
    (consumer, SessionEnds { ready: spent, updates, stop })
}

#[test]
fn new_consumer_shows_the_setup_screen() {
    let consumer: Consumer<u32> = Consumer::new();
    assert_eq!(consumer.screen(), Screen::Setup);
    assert_eq!(consumer.discovery_control(), DiscoveryControl::Discover);
    assert!(!consumer.connecting());
    assert!(consumer.device_names().is_empty());
    assert_eq!(consumer.speed(), 0);
    assert_eq!(consumer.power(), 0);
    assert_eq!(consumer.speed_kmh(), 0);
    assert!(consumer.speed_history().is_empty());
    assert!(consumer.power_history().is_empty());
    assert_eq!(consumer.last_error(), None);
}

#[test]
fn polling_without_channels_changes_nothing() {
    let mut consumer = with_device("KICKR", 1);
    consumer.update_discovery();
    consumer.update_discovery();
    assert_eq!(consumer.screen(), Screen::Setup);
    assert_eq!(consumer.device_names(), vec![String::from("KICKR")]);
    assert_eq!(consumer.last_error(), None);
    assert!(consumer.power_history().is_empty());
}

#[test]
fn unnamed_device_is_registered_as_unknown() {
    assert_eq!(display_name(None), "UNKNOWN");
    assert_eq!(display_name(Some(String::from("KICKR"))), "KICKR");
    let mut consumer = Consumer::new();
    consumer.on_device(Polled::Item(Ok(Found { name: None, device: 4u32 })));
    assert_eq!(consumer.device("UNKNOWN"), Some(&4));
    assert_eq!(consumer.device_names(), vec![String::from("UNKNOWN")]);
}

#[test]
fn later_device_of_the_same_name_overwrites() {
    let mut consumer = Consumer::new();
    consumer.on_device(Polled::Item(found("KICKR", 1)));
    consumer.on_device(Polled::Item(found("Tacx", 2)));
    consumer.on_device(Polled::Item(found("KICKR", 3)));
    assert_eq!(consumer.device("KICKR"), Some(&3));
    assert_eq!(consumer.device("Tacx"), Some(&2));
    assert_eq!(
        consumer.device_names(),
        vec![String::from("KICKR"), String::from("Tacx")]
    );
}

#[test]
fn telemetry_updates_readings_and_history() {
    let mut consumer: Consumer<u32> = Consumer::new();
    consumer.on_telemetry(Polled::Item(TrainerUpdate::Power { speed: 2534, power: 180 }));
    consumer.on_telemetry(Polled::Empty);
    consumer.on_telemetry(Polled::Item(TrainerUpdate::Power { speed: 2699, power: 210 }));
    assert_eq!(consumer.speed(), 2699);
    assert_eq!(consumer.speed_kmh(), 26);
    assert_eq!(consumer.power(), 210);
    assert_eq!(consumer.speed_history(), &vec![2534, 2699]);
    assert_eq!(consumer.power_history(), &vec![180, 210]);
}

#[test]
fn speed_in_whole_kmh_rounds_down() {
    let mut consumer: Consumer<u32> = Consumer::new();
    consumer.on_telemetry(Polled::Item(TrainerUpdate::Power { speed: 99, power: 0 }));
    assert_eq!(consumer.speed_kmh(), 0);
    consumer.on_telemetry(Polled::Item(TrainerUpdate::Power { speed: 100, power: 0 }));
    assert_eq!(consumer.speed_kmh(), 1);
    consumer.on_telemetry(Polled::Item(TrainerUpdate::Power { speed: u16::MAX, power: 0 }));
    assert_eq!(consumer.speed_kmh(), 655);
}

#[test]
fn channels_hold_1024_items() {
    assert_eq!(CHANNEL_CAPACITY, 1024);
    let mut consumer = with_device("KICKR", 1);
    let scan: DiscoveryEnds<u32> = consumer.start_discover().ok().unwrap();
    assert_eq!(scan.sightings.max_capacity(), 1024);
    let session = consumer.connect("KICKR").ok().unwrap();
    assert_eq!(session.updates.max_capacity(), 1024);
}

#[test]
fn full_channel_holds_the_sender_up_and_drops_nothing() {
    let (mut consumer, session) = connected("KICKR");
    for i in 0..CHANNEL_CAPACITY {
        let update = TrainerUpdate::Power { speed: i as u16, power: 1 };
        assert!(session.updates.try_send(update).is_ok());
    }
    let late = TrainerUpdate::Power { speed: 7, power: 7 };
    assert_eq!(session.updates.try_send(late), Err(TrySendError::Full(late)));
    consumer.update_discovery();
    assert_eq!(consumer.speed(), 0);
    assert!(session.updates.try_send(late).is_ok());
    for _ in 0..CHANNEL_CAPACITY {
        consumer.update_discovery();
    }
    assert_eq!(consumer.speed_history().len(), CHANNEL_CAPACITY + 1);
    assert_eq!(consumer.speed_history()[1], 1);
    assert_eq!(consumer.speed_history()[CHANNEL_CAPACITY - 1], 1023);
    assert_eq!(consumer.speed(), 7);
}

#[test]
fn second_discovery_is_refused_while_one_is_held() {
    let mut consumer: Consumer<u32> = Consumer::new();
    let first = consumer.start_discover();
    assert!(first.is_ok());
    assert_eq!(consumer.discovery_control(), DiscoveryControl::StopDiscovery);
    assert_eq!(consumer.start_discover().err(), Some(Error::ScanFailure));
    assert_eq!(consumer.discovery_control(), DiscoveryControl::StopDiscovery);
    let mut ends = first.ok().unwrap();
    assert_eq!(ends.stop.try_recv(), Err(TryRecvError::Empty));
}

#[test]
fn stop_discover_clears_devices_and_signals_once() {
    let mut consumer = Consumer::new();
    let DiscoveryEnds { sightings, mut stop } = consumer.start_discover().ok().unwrap();
    sightings.try_send(found("KICKR", 1)).ok().unwrap();
    consumer.update_discovery();
    assert_eq!(consumer.device_names(), vec![String::from("KICKR")]);

    assert_eq!(stop.try_recv(), Err(TryRecvError::Empty));
    assert!(consumer.stop_discover());
    assert_eq!(stop.try_recv(), Ok(()));
    assert!(consumer.device_names().is_empty());
    assert_eq!(consumer.device("KICKR"), None);
    assert!(!consumer.stop_discover());
    assert_eq!(consumer.discovery_control(), DiscoveryControl::StopDiscovery);

    drop(sightings);
    consumer.update_discovery();
    assert_eq!(consumer.discovery_control(), DiscoveryControl::Discover);
    assert!(consumer.start_discover().is_ok());
}

#[test]
fn stop_signal_to_an_ended_task_is_not_taken() {
    let mut consumer: Consumer<u32> = Consumer::new();
    let ends = consumer.start_discover().ok().unwrap();
    drop(ends);
    assert!(!consumer.stop_discover());
}

#[test]
fn stop_without_discovery_sends_nothing() {
    let mut consumer: Consumer<u32> = Consumer::new();
    assert!(!consumer.stop_discover());
    assert_eq!(consumer.discovery_control(), DiscoveryControl::Discover);
}

#[test]
fn scan_failure_reaches_the_consumer() {
    let mut consumer: Consumer<u32> = Consumer::new();
    let ends = consumer.start_discover().ok().unwrap();
    ends.sightings.try_send(Err(Error::ScanFailure)).ok().unwrap();
    consumer.update_discovery();
    assert_eq!(consumer.last_error(), Some(Error::ScanFailure));
    assert_eq!(consumer.discovery_control(), DiscoveryControl::Discover);
}

#[test]
fn one_item_is_taken_per_poll() {
    let mut consumer = Consumer::new();
    let ends = consumer.start_discover().ok().unwrap();
    ends.sightings.try_send(found("a", 1)).ok().unwrap();
    ends.sightings.try_send(found("b", 2)).ok().unwrap();
    consumer.update_discovery();
    assert_eq!(consumer.device_names(), vec![String::from("a")]);
    consumer.update_discovery();
    assert_eq!(consumer.device_names(), vec![String::from("a"), String::from("b")]);
    consumer.update_discovery();
    assert_eq!(consumer.device_names().len(), 2);
}

#[test]
fn connect_to_unknown_device_is_refused() {
    let mut consumer: Consumer<u32> = Consumer::new();
    assert_eq!(consumer.connect("KICKR").err(), Some(Error::ConnectFailure));
    assert!(!consumer.connecting());
}

#[test]
fn second_connect_is_refused_while_one_is_under_way() {
    let mut consumer = with_device("KICKR", 1);
    let first = consumer.connect("KICKR");
    assert!(first.is_ok());
    assert!(consumer.connecting());
    assert_eq!(consumer.connect("KICKR").err(), Some(Error::ConnectFailure));
    assert!(consumer.connecting());
}

#[test]
fn connect_is_refused_while_a_session_is_held() {
    let (mut consumer, _session) = connected("KICKR");
    assert_eq!(consumer.connect("KICKR").err(), Some(Error::ConnectFailure));
    assert_eq!(consumer.screen(), Screen::Connected);
}

#[test]
fn failed_connection_is_reported() {
    let mut consumer = with_device("KICKR", 1);
    let ends = consumer.connect("KICKR").ok().unwrap();
    consumer.update_discovery();
    assert!(consumer.connecting());
    assert!(ends.ready.send(Err(Error::ServiceNotFound)).is_ok());
    consumer.update_discovery();
    assert!(!consumer.connecting());
    assert_eq!(consumer.last_error(), Some(Error::ServiceNotFound));
    assert_eq!(consumer.screen(), Screen::Setup);
    assert!(consumer.connect("KICKR").is_ok());
}

#[test]
fn connection_task_that_vanishes_counts_as_failed() {
    let mut consumer = with_device("KICKR", 1);
    let ends = consumer.connect("KICKR").ok().unwrap();
    drop(ends);
    consumer.update_discovery();
    assert!(!consumer.connecting());
    assert_eq!(consumer.last_error(), Some(Error::ConnectFailure));
}

#[test]
fn answer_without_an_attempt_is_ignored() {
    let mut consumer = with_device("KICKR", 1);
    consumer.on_connection(Polled::Item(Ok(())));
    assert_eq!(consumer.screen(), Screen::Setup);
    consumer.on_connection(Polled::Closed);
    assert_eq!(consumer.last_error(), None);
    let (mut consumer, _session) = connected("KICKR");
    consumer.on_connection(Polled::Item(Err(Error::ConnectFailure)));
    assert_eq!(consumer.screen(), Screen::Connected);
    assert_eq!(consumer.last_error(), None);
}

#[test]
fn updates_sent_before_setup_ends_wait_in_the_channel() {
    let mut consumer = with_device("KICKR", 1);
    let ends = consumer.connect("KICKR").ok().unwrap();
    ends.updates.try_send(TrainerUpdate::Power { speed: 5, power: 6 }).unwrap();
    consumer.update_discovery();
    assert_eq!(consumer.power(), 0);
    assert!(ends.ready.send(Ok(())).is_ok());
    consumer.update_discovery();
    assert_eq!(consumer.screen(), Screen::Connected);
    assert_eq!(consumer.power(), 0);
    consumer.update_discovery();
    assert_eq!(consumer.power(), 6);
}

#[test]
fn dropped_sender_is_seen_as_closed_not_waited_for() {
    let (mut consumer, session) = connected("KICKR");
    session.updates.try_send(TrainerUpdate::Power { speed: 1, power: 2 }).unwrap();
    drop(session);
    consumer.update_discovery();
    assert_eq!(consumer.screen(), Screen::Connected);
    assert_eq!(consumer.power(), 2);
    consumer.update_discovery();
    assert_eq!(consumer.screen(), Screen::Setup);
    assert_eq!(consumer.power(), 2);
    assert_eq!(consumer.power_history(), &vec![2]);
    assert_eq!(consumer.last_error(), None);
    consumer.update_discovery();
    assert_eq!(consumer.screen(), Screen::Setup);
}

#[test]
fn empty_channel_changes_nothing() {
    let (mut consumer, _session) = connected("KICKR");
    consumer.update_discovery();
    consumer.update_discovery();
    consumer.update_discovery();
    assert_eq!(consumer.screen(), Screen::Connected);
    assert!(consumer.power_history().is_empty());
    assert_eq!(consumer.speed(), 0);
}

#[test]
fn disconnect_signals_the_session_and_keeps_the_readings() {
    let (mut consumer, mut session) = connected("KICKR");
    session.updates.try_send(TrainerUpdate::Power { speed: 300, power: 40 }).unwrap();
    consumer.update_discovery();
    assert_eq!(session.stop.try_recv(), Err(TryRecvError::Empty));
    assert!(consumer.disconnect());
    assert_eq!(session.stop.try_recv(), Ok(()));
    assert_eq!(consumer.screen(), Screen::Setup);
    assert_eq!(consumer.power(), 40);
    assert_eq!(consumer.speed_history(), &vec![300]);
    assert!(session.updates.is_closed());
    assert!(!consumer.disconnect());
    assert!(consumer.connect("KICKR").is_ok());
}

#[test]
fn disconnect_gives_up_an_attempt() {
    let mut consumer = with_device("KICKR", 1);
    let mut ends = consumer.connect("KICKR").ok().unwrap();
    assert!(consumer.disconnect());
    assert_eq!(ends.stop.try_recv(), Ok(()));
    assert!(!consumer.connecting());
    assert!(ends.ready.is_closed());
    assert_eq!(consumer.last_error(), None);
}

#[test]
fn disconnect_after_the_task_ended_is_not_taken() {
    let (mut consumer, session) = connected("KICKR");
    drop(session);
    assert!(!consumer.disconnect());
    assert_eq!(consumer.screen(), Screen::Setup);
}

#[test]
fn discovery_to_telemetry_end_to_end() {
    let bt = BT::init(Some(()), true).ok().unwrap();
    let mut consumer: Consumer<u32> = Consumer::new();

    // Start discovery.
    let scan_ends = consumer.start_discover().ok().unwrap();
    let mut scan = bt.discover_devices();
    assert_eq!(scan.pending(), DiscoveryAction::StartScan { service: FITNESS_MACHINE });
    assert_eq!(scan.step(DiscoveryEvent::ScanStarted), DiscoveryAction::AwaitNext);

    // One matching advertisement.
    assert_eq!(
        scan.step(DiscoveryEvent::Sighting(vec![FITNESS_MACHINE])),
        DiscoveryAction::Forward
    );
    scan_ends.sightings.try_send(found("KICKR CORE", 42)).ok().unwrap();
    assert_eq!(scan.step(DiscoveryEvent::Forwarded), DiscoveryAction::AwaitNext);

    consumer.update_discovery();
    assert_eq!(consumer.device_names(), vec![String::from("KICKR CORE")]);
    assert_eq!(consumer.device("KICKR CORE"), Some(&42));

    // Connect to it.
    let session_ends = consumer.connect("KICKR CORE").ok().unwrap();
    assert!(consumer.connecting());
    let mut session = bt.connect();
    assert_eq!(session.pending(), SessionAction::Connect);
    assert_eq!(session.step(SessionEvent::Connected), SessionAction::DiscoverServices);
    assert_eq!(
        session.step(SessionEvent::Services(vec![0x1800, FITNESS_MACHINE])),
        SessionAction::DiscoverCharacteristics { service: 1 }
    );
    assert_eq!(
        session.step(SessionEvent::Characteristics(vec![INDOOR_BIKE_DATA])),
        SessionAction::Subscribe { characteristic: 0 }
    );
    assert_eq!(
        session.step(SessionEvent::Subscribed),
        SessionAction::Listen { repaint: false }
    );
    assert!(session_ends.ready.send(Ok(())).is_ok());
    consumer.update_discovery();
    assert!(!consumer.connecting());
    assert_eq!(consumer.screen(), Screen::Connected);

    // Three notifications in a row.
    let payloads: [[u8; 6]; 3] = [
        [0, 0, 0x10, 0x00, 0x64, 0x00],
        [0, 0, 0xc4, 0x09, 0xfa, 0x00],
        [0, 0, 0x00, 0x01, 0x2c, 0x01],
    ];
    let expected = [
        TrainerUpdate::Power { speed: 16, power: 100 },
        TrainerUpdate::Power { speed: 2500, power: 250 },
        TrainerUpdate::Power { speed: 256, power: 300 },
    ];
    for (payload, update) in payloads.iter().zip(expected.iter()) {
        match session.step(SessionEvent::Notification(payload.to_vec())) {
            SessionAction::Deliver(decoded) => {
                assert_eq!(decoded, *update);
                session_ends.updates.try_send(decoded).unwrap();
            }
            other => panic!("expected a delivery, got {:?}", other),
        }
        assert_eq!(
            session.step(SessionEvent::Delivered),
            SessionAction::Listen { repaint: true }
        );
    }

    let mut seen = Vec::new();
    for _ in 0..3 {
        consumer.update_discovery();
        seen.push(TrainerUpdate::Power { speed: consumer.speed(), power: consumer.power() });
    }
    assert_eq!(seen, expected.to_vec());
    assert_eq!(consumer.speed_history(), &vec![16, 2500, 256]);
    assert_eq!(consumer.power_history(), &vec![100, 250, 300]);
    consumer.update_discovery();
    assert_eq!(consumer.power_history().len(), 3);
    assert_eq!(consumer.device_names().len(), 1);
}
