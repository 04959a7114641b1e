//! The consumer's side of discovery and of a session.
//!
//! The consumer is the display loop. It owns the registry of discovered
//! devices and the receiving ends of three channels: sightings from the
//! discovery task, the outcome of a connection attempt, and updates from
//! the session task. Once per frame it asks each channel whether something
//! is there and takes at most one item from each; it never waits.
//!
//! One discovery runs at a time: a new one can be started only when the
//! task of the one before has ended and its channel has been seen closed.
//! One session runs at a time.

use vstd::prelude::*;
use tokio::sync::mpsc::{Receiver, Sender};
use crate::channel::{bounded, once, poll, poll_once, send_once, Polled, CHANNEL_CAPACITY};
use crate::error::Error;
use crate::registry::Registry;
use crate::telemetry::TrainerUpdate;

verus! {

/// A device as the discovery task forwards it.
pub struct Found<D> {
    /// The device's display name, where it has one.
    pub name: Option<String>,
    /// The device.
    pub device: D,
}

/// The discovery task's ends of the channels it shares with the consumer.
#[verifier::reject_recursive_types(D)]
pub struct DiscoveryEnds<D> {
    /// Where the task sends each device it forwards, or the error that
    /// ended it.
    pub sightings: Sender<Result<Found<D>, Error>>,
    /// Where the consumer's stop signal arrives.
    pub stop: tokio::sync::oneshot::Receiver<()>,
}

/// The session task's ends of the channels it shares with the consumer.
pub struct SessionEnds {
    /// Where the task answers the attempt: once, when setup has succeeded
    /// or failed.
    pub ready: tokio::sync::oneshot::Sender<Result<(), Error>>,
    /// Where the task sends each decoded update.
    pub updates: Sender<TrainerUpdate>,
    /// Where the consumer's stop signal arrives.
    pub stop: tokio::sync::oneshot::Receiver<()>,
}

/// Which screen the display shows.
#[derive(Clone, Copy, Debug, PartialEq, Eq, Structural)]
pub enum Screen {
    /// Discovery and the choice of a device.
    Setup,
    /// The readings of the connected device.
    Connected,
}

/// What the discovery button offers.
#[derive(Clone, Copy, Debug, PartialEq, Eq, Structural)]
pub enum DiscoveryControl {
    /// Start a discovery.
    Discover,
    /// Stop the discovery that is running.
    StopDiscovery,
}

/// The state that the display loop keeps between frames.
#[verifier::reject_recursive_types(D)]
pub struct Consumer<D> {
    discover_rx: Option<Receiver<Result<Found<D>, Error>>>,
    discover_stop: Option<tokio::sync::oneshot::Sender<()>>,
    devices: Registry<D>,
    connected_device: Option<Receiver<TrainerUpdate>>,
    connected_rx: Option<tokio::sync::oneshot::Receiver<Result<(), Error>>>,
    pending_device: Option<Receiver<TrainerUpdate>>,
    session_stop: Option<tokio::sync::oneshot::Sender<()>>,
    current_speed: u16,
    current_power: u16,
    historical_speeds: Vec<u16>,
    historical_powers: Vec<u16>,
    last_error: Option<Error>,
}

/// The consumer's state as the contracts see it.
pub struct ConsumerView<D> {
    /// A discovery channel is held.
    pub discovering: bool,
    /// The stop signal of the discovery has not been sent yet.
    pub stoppable: bool,
    /// The registered devices by display name.
    pub devices: Map<Seq<char>, D>,
    /// The registered names in the order in which they were first seen.
    pub names: Seq<Seq<char>>,
    /// A connection attempt is under way.
    pub connecting: bool,
    /// A session is held.
    pub connected: bool,
    /// The stop signal of the attempt or session has not been sent yet.
    pub session_stoppable: bool,
    /// The latest speed, in hundredths of km/h.
    pub speed: u16,
    /// The latest power, in watts.
    pub power: u16,
    /// Every speed received, oldest first.
    pub speeds: Seq<u16>,
    /// Every power received, oldest first.
    pub powers: Seq<u16>,
    /// The latest error that was reported to the consumer.
    pub last_error: Option<Error>,
}

/// The name a device is registered under: its own, or `UNKNOWN`.
pub open spec fn spec_display_name(name: Option<String>) -> Seq<char> {
    match name {
        Some(name) => name@,
        None => "UNKNOWN"@,
    }
}

/// The name a device is registered under: its own, or `UNKNOWN`.
pub fn display_name(name: Option<String>) -> (shown: String)
    ensures
        shown@ == spec_display_name(name),
{
    match name {
        Some(name) => name,
        None => "UNKNOWN".to_owned(),
    }
}

impl<D> ConsumerView<D> {
    /// The state of a consumer that has done nothing yet.
    pub open spec fn initial() -> ConsumerView<D> {
        ConsumerView {
            discovering: false,
            stoppable: false,
            devices: Map::empty(),
            names: Seq::empty(),
            connecting: false,
            connected: false,
            session_stoppable: false,
            speed: 0,
            power: 0,
            speeds: Seq::empty(),
            powers: Seq::empty(),
            last_error: None,
        }
    }

    /// The state with `device` registered under `name`: a device of that
    /// name is replaced.
    pub open spec fn registered(self, name: Seq<char>, device: D) -> ConsumerView<D> {
        ConsumerView {
            devices: self.devices.insert(name, device),
            names: if self.devices.contains_key(name) {
                self.names
            } else {
                self.names.push(name)
            },
            ..self
        }
    }

    /// The state after the session channel answered.
    ///
    /// An update becomes the latest reading and is added to the history.
    /// A closed channel is the end of the session that is held; the
    /// readings stay.
    pub open spec fn after_telemetry(self, polled: Polled<TrainerUpdate>) -> ConsumerView<D> {
        match polled {
            Polled::Item(TrainerUpdate::Power { speed, power }) => ConsumerView {
                speed,
                power,
                speeds: self.speeds.push(speed),
                powers: self.powers.push(power),
                ..self
            },
            Polled::Empty => self,
            Polled::Closed => if self.connected {
                ConsumerView { connected: false, session_stoppable: false, ..self }
            } else {
                self
            },
        }
    }

    /// The state after the discovery channel answered.
    ///
    /// A device is registered under its display name. An error is kept
    /// for the display and ends the discovery, as a closed channel does.
    pub open spec fn after_device(self, polled: Polled<Result<Found<D>, Error>>) -> ConsumerView<
        D,
    > {
        match polled {
            Polled::Item(Ok(found)) => self.registered(
                spec_display_name(found.name),
                found.device,
            ),
            Polled::Item(Err(error)) => ConsumerView {
                discovering: false,
                stoppable: false,
                last_error: Some(error),
                ..self
            },
            Polled::Empty => self,
            Polled::Closed => ConsumerView { discovering: false, stoppable: false, ..self },
        }
    }

    /// The state after the channel of the connection attempt answered.
    ///
    /// Success turns the attempt into the session. An error ends the
    /// attempt and is kept for the display; a channel closed without an
    /// answer counts as a failed connection. Without an attempt under way
    /// no answer counts.
    pub open spec fn after_connection(self, polled: Polled<Result<(), Error>>) -> ConsumerView<
        D,
    > {
        if !self.connecting {
            self
        } else {
            match polled {
                Polled::Item(Ok(())) => ConsumerView {
                    connecting: false,
                    connected: true,
                    ..self
                },
                Polled::Item(Err(error)) => ConsumerView {
                    connecting: false,
                    session_stoppable: false,
                    last_error: Some(error),
                    ..self
                },
                Polled::Empty => self,
                Polled::Closed => ConsumerView {
                    connecting: false,
                    session_stoppable: false,
                    last_error: Some(Error::ConnectFailure),
                    ..self
                },
            }
        }
    }

    /// The state after one round of polling: the session channel first,
    /// then the discovery channel, then the connection attempt.
    pub open spec fn after_polls(
        self,
        telemetry: Polled<TrainerUpdate>,
        device: Polled<Result<Found<D>, Error>>,
        connection: Polled<Result<(), Error>>,
    ) -> ConsumerView<D> {
        self.after_telemetry(telemetry).after_device(device).after_connection(connection)
    }

    /// The state after the session channel handed over a run of updates,
    /// one per poll.
    pub open spec fn after_updates(self, updates: Seq<TrainerUpdate>) -> ConsumerView<D>
        decreases updates.len(),
    {
        if updates.len() == 0 {
            self
        } else {
            self.after_updates(updates.drop_last()).after_telemetry(Polled::Item(updates.last()))
        }
    }

    /// Whether a discovery may be started: none is held.
    pub open spec fn may_discover(self) -> bool {
        !self.discovering
    }

    /// The state with a discovery started.
    pub open spec fn discovery_started(self) -> ConsumerView<D> {
        ConsumerView { discovering: true, stoppable: true, ..self }
    }

    /// The state after the discovery was told to stop: the registry is
    /// empty and the stop signal is spent.
    pub open spec fn discovery_stopped(self) -> ConsumerView<D> {
        ConsumerView { stoppable: false, devices: Map::empty(), names: Seq::empty(), ..self }
    }

    /// Whether a connection to the device called `name` may be started:
    /// the name is registered, and no attempt and no session is held.
    pub open spec fn may_connect(self, name: Seq<char>) -> bool {
        self.devices.contains_key(name) && !self.connecting && !self.connected
    }

    /// The state with a connection attempt started.
    pub open spec fn connection_started(self) -> ConsumerView<D> {
        ConsumerView { connecting: true, session_stoppable: true, ..self }
    }

    /// The state after the attempt or session was given up.
    pub open spec fn disconnected(self) -> ConsumerView<D> {
        ConsumerView { connecting: false, connected: false, session_stoppable: false, ..self }
    }

    /// Which screen the state calls for.
    pub open spec fn screen(self) -> Screen {
        if self.connected {
            Screen::Connected
        } else {
            Screen::Setup
        }
    }
}

/// The consumer sees each update once and in the order of arrival: a run
/// of updates is appended to the histories as it came, the last of them is
/// the latest reading, and nothing else changes.
pub proof fn history_follows_the_updates<D>(state: ConsumerView<D>, updates: Seq<TrainerUpdate>)
    ensures
        state.after_updates(updates).speeds == state.speeds + updates.map_values(
            |update: TrainerUpdate| update->speed,
        ),
        state.after_updates(updates).powers == state.powers + updates.map_values(
            |update: TrainerUpdate| update->power,
        ),
        updates.len() > 0 ==> state.after_updates(updates).speed == updates.last()->speed
            && state.after_updates(updates).power == updates.last()->power,
        state.after_updates(updates) == (ConsumerView {
            speed: state.after_updates(updates).speed,
            power: state.after_updates(updates).power,
            speeds: state.after_updates(updates).speeds,
            powers: state.after_updates(updates).powers,
            ..state
        }),
    decreases updates.len(),
{
    let speed_of = |update: TrainerUpdate| update->speed;
    let power_of = |update: TrainerUpdate| update->power;
    if updates.len() == 0 {
        assert(state.speeds + updates.map_values(speed_of) =~= state.speeds);
        assert(state.powers + updates.map_values(power_of) =~= state.powers);
    } else {
        let earlier = updates.drop_last();
        history_follows_the_updates(state, earlier);
        assert(updates.map_values(speed_of) =~= earlier.map_values(speed_of).push(
            updates.last()->speed,
        ));
        assert(updates.map_values(power_of) =~= earlier.map_values(power_of).push(
            updates.last()->power,
        ));
        assert((state.speeds + earlier.map_values(speed_of)).push(updates.last()->speed)
            =~= state.speeds + updates.map_values(speed_of));
        assert((state.powers + earlier.map_values(power_of)).push(updates.last()->power)
            =~= state.powers + updates.map_values(power_of));
    }
}

/// A channel that was seen closed is let go: the consumer does not ask it
/// again, so a task that has ended never holds the display up.
pub proof fn closed_channel_is_let_go<D>(state: ConsumerView<D>)
    ensures
        !state.after_telemetry(Polled::Closed).connected,
        !state.after_device(Polled::Closed).discovering,
        !state.after_connection(Polled::Closed).connecting,
        state.after_telemetry(Polled::Closed).speeds == state.speeds,
        state.after_telemetry(Polled::Closed).powers == state.powers,
        state.after_telemetry(Polled::Closed).last_error == state.last_error,
{
}

/// Names are not unique among devices, and the latest device of a name
/// wins: registering two devices under one name leaves what registering
/// the second alone would leave.
pub proof fn latest_device_of_a_name_wins<D>(
    state: ConsumerView<D>,
    name: Seq<char>,
    earlier: D,
    later: D,
)
    ensures
        state.registered(name, earlier).registered(name, later) == state.registered(name, later),
        state.registered(name, later).devices[name] == later,
{
    let twice = state.registered(name, earlier).registered(name, later);
    let once = state.registered(name, later);
    assert(twice.devices =~= once.devices);
}

impl<D> View for Consumer<D> {
    type V = ConsumerView<D>;

    closed spec fn view(&self) -> ConsumerView<D> {
        ConsumerView {
            discovering: self.discover_rx is Some,
            stoppable: self.discover_stop is Some,
            devices: self.devices@,
            names: self.devices.names(),
            connecting: self.connected_rx is Some,
            connected: self.connected_device is Some,
            session_stoppable: self.session_stop is Some,
            speed: self.current_speed,
            power: self.current_power,
            speeds: self.historical_speeds@,
            powers: self.historical_powers@,
            last_error: self.last_error,
        }
    }
}

impl<D> Consumer<D> {
    /// What holds of every consumer: no name is registered twice; a stop
    /// signal is held only for what it would stop; the update channel of
    /// an attempt is held as long as the attempt; attempt and session
    /// exclude each other; and the latest reading is the last entry of
    /// each history.
    pub closed spec fn wf(&self) -> bool {
        &&& self.devices.wf()
        &&& self.discover_stop is Some ==> self.discover_rx is Some
        &&& self.connected_rx is Some <==> self.pending_device is Some
        &&& self.connected_rx is Some ==> self.connected_device is None
        &&& self.session_stop is Some ==> self.connected_rx is Some || self.connected_device
            is Some
        &&& self.historical_speeds@.len() == self.historical_powers@.len()
        &&& self.historical_speeds@.len() == 0 ==> self.current_speed == 0 && self.current_power
            == 0
        &&& self.historical_speeds@.len() > 0 ==> self.current_speed
            == self.historical_speeds@.last() && self.current_power
            == self.historical_powers@.last()
    }

    /// What well-formedness says of the view.
    pub proof fn wf_view(&self)
        requires
            self.wf(),
        ensures
            self@.stoppable ==> self@.discovering,
            !(self@.connecting && self@.connected),
            self@.session_stoppable ==> self@.connecting || self@.connected,
            self@.speeds.len() == self@.powers.len(),
            self@.speeds.len() == 0 ==> self@.speed == 0 && self@.power == 0,
            self@.speeds.len() > 0 ==> self@.speed == self@.speeds.last() && self@.power
                == self@.powers.last(),
            self@.names.no_duplicates(),
            forall|name: Seq<char>| self@.names.contains(name) <==> self@.devices.contains_key(name),
    {
        self.devices.names_are_keys();
    }

    /// A consumer that has done nothing yet.
    pub fn new() -> (c: Consumer<D>)
        ensures
            c.wf(),
            c@ == ConsumerView::<D>::initial(),
    {
        Consumer {
            discover_rx: None,
            discover_stop: None,
            devices: Registry::new(),
            connected_device: None,
            connected_rx: None,
            pending_device: None,
            session_stop: None,
            current_speed: 0,
            current_power: 0,
            historical_speeds: Vec::new(),
            historical_powers: Vec::new(),
            last_error: None,
        }
    }

    /// Takes what the session channel answered.
    pub fn on_telemetry(&mut self, polled: Polled<TrainerUpdate>)
        requires
            old(self).wf(),
        ensures
            final(self).wf(),
            final(self)@ == old(self)@.after_telemetry(polled),
    {
        match polled {
            Polled::Item(update) => match update {
                TrainerUpdate::Power { speed, power } => {
                    self.current_speed = speed;
                    self.current_power = power;
                    self.historical_powers.push(power);
                    self.historical_speeds.push(speed);
                },
            },
            Polled::Empty => {},
            Polled::Closed => {
                if self.connected_device.is_some() {
                    self.connected_device = None;
                    self.session_stop = None;
                }
            },
        }
    }

    /// Takes what the discovery channel answered.
    pub fn on_device(&mut self, polled: Polled<Result<Found<D>, Error>>)
        requires
            old(self).wf(),
        ensures
            final(self).wf(),
            final(self)@ == old(self)@.after_device(polled),
    {
        match polled {
            Polled::Item(Ok(found)) => {
                let Found { name, device } = found;
                self.devices.insert(display_name(name), device);
            },
            Polled::Item(Err(error)) => {
                self.discover_rx = None;
                self.discover_stop = None;
                self.last_error = Some(error);
            },
            Polled::Empty => {},
            Polled::Closed => {
                self.discover_rx = None;
                self.discover_stop = None;
            },
        }
    }

    /// Takes what the channel of the connection attempt answered.
    pub fn on_connection(&mut self, polled: Polled<Result<(), Error>>)
        requires
            old(self).wf(),
        ensures
            final(self).wf(),
            final(self)@ == old(self)@.after_connection(polled),
    {
        if self.connected_rx.is_none() {
            return ;
        }
        match polled {
            Polled::Item(Ok(())) => {
                self.connected_device = self.pending_device.take();
                self.connected_rx = None;
            },
            Polled::Item(Err(error)) => {
                self.connected_rx = None;
                self.pending_device = None;
                self.session_stop = None;
                self.last_error = Some(error);
            },
            Polled::Empty => {},
            Polled::Closed => {
                self.connected_rx = None;
                self.pending_device = None;
                self.session_stop = None;
                self.last_error = Some(Error::ConnectFailure);
            },
        }
    }

    /// Asks each channel that is held whether something is there, and
    /// takes at most one item from each: the session channel first, then
    /// the discovery channel, then the connection attempt.
    ///
    /// What the channels answer lies with the background tasks. Whatever
    /// they answer, the new state is the old one after those three
    /// answers, and a channel that is not held counts as empty.
    pub fn update_discovery(&mut self)
        requires
            old(self).wf(),
        ensures
            final(self).wf(),
            exists|
                telemetry: Polled<TrainerUpdate>,
                device: Polled<Result<Found<D>, Error>>,
                connection: Polled<Result<(), Error>>,
            |
                {
                    &&& final(self)@ == #[trigger] old(self)@.after_polls(
                        telemetry,
                        device,
                        connection,
                    )
                    &&& !old(self)@.connected ==> telemetry is Empty
                    &&& !old(self)@.discovering ==> device is Empty
                    &&& !old(self)@.connecting ==> connection is Empty
                },
    {
        let ghost start = self@;
        let ghost mut telemetry: Polled<TrainerUpdate> = Polled::Empty;
        let ghost mut device: Polled<Result<Found<D>, Error>> = Polled::Empty;
        let ghost mut connection: Polled<Result<(), Error>> = Polled::Empty;

        let session = self.connected_device.take();
        match session {
            Some(mut rx) => {
                let polled = poll(&mut rx);
                self.connected_device = Some(rx);
                proof {
                    telemetry = polled;
                }
                self.on_telemetry(polled);
            },
            None => {},
        }
        let scan = self.discover_rx.take();
        match scan {
            Some(mut rx) => {
                let polled = poll(&mut rx);
                self.discover_rx = Some(rx);
                proof {
                    device = polled;
                }
                self.on_device(polled);
            },
            None => {},
        }
        let attempt = self.connected_rx.take();
        match attempt {
            Some(mut rx) => {
                let polled = poll_once(&mut rx);
                self.connected_rx = Some(rx);
                proof {
                    connection = polled;
                }
                self.on_connection(polled);
            },
            None => {},
        }
        assert(self@ == start.after_polls(telemetry, device, connection));
    }

    /// Opens the channels of a discovery, keeps the consumer's ends and
    /// hands out the task's: the sending end for sightings and the
    /// receiving end for the stop signal.
    ///
    /// One discovery is held at a time. While one is held nothing is
    /// opened, nothing changes and the result is `ScanFailure`.
    pub fn start_discover(&mut self) -> (r: Result<DiscoveryEnds<D>, Error>)
        requires
            old(self).wf(),
        ensures
            final(self).wf(),
            r is Ok <==> old(self)@.may_discover(),
            r is Ok ==> final(self)@ == old(self)@.discovery_started(),
            r matches Err(error) ==> error == Error::ScanFailure && final(self)@ == old(self)@,
    {
        if self.discover_rx.is_some() {
            return Err(Error::ScanFailure);
        }
        let (sightings, rx) = bounded(CHANNEL_CAPACITY);
        let (stop_tx, stop) = once();
        self.discover_rx = Some(rx);
        self.discover_stop = Some(stop_tx);
        Ok(DiscoveryEnds { sightings, stop })
    }

    /// Forgets every device and sends the stop signal, if it has not been
    /// sent before. Returns whether the discovery task took the signal; it
    /// cannot where the task has ended already.
    ///
    /// The channel stays held until it is seen closed, so that sightings
    /// that were under way are not lost and no second discovery starts
    /// beside the first.
    pub fn stop_discover(&mut self) -> (taken: bool)
        requires
            old(self).wf(),
        ensures
            final(self).wf(),
            final(self)@ == old(self)@.discovery_stopped(),
            taken ==> old(self)@.stoppable,
    {
        self.devices.clear();
        let stop = self.discover_stop.take();
        match stop {
            Some(tx) => send_once(tx, ()).is_ok(),
            None => false,
        }
    }

    /// The device registered under `name`, if there is one.
    pub fn device(&self, name: &str) -> (r: Option<&D>)
        requires
            self.wf(),
        ensures
            r is Some <==> self@.devices.contains_key(name@),
            r matches Some(device) ==> *device == self@.devices[name@],
    {
        self.devices.get(name)
    }

    /// Opens the channels of a connection attempt to the device registered
    /// under `name`, keeps the consumer's ends and hands out the task's.
    ///
    /// Nothing is opened, nothing changes and the result is
    /// `ConnectFailure` where no device of that name is registered or an
    /// attempt or a session is held already.
    pub fn connect(&mut self, name: &str) -> (r: Result<SessionEnds, Error>)
        requires
            old(self).wf(),
        ensures
            final(self).wf(),
            r is Ok <==> old(self)@.may_connect(name@),
            r is Ok ==> final(self)@ == old(self)@.connection_started(),
            r matches Err(error) ==> error == Error::ConnectFailure && final(self)@ == old(self)@,
    {
        if self.connected_rx.is_some() || self.connected_device.is_some() || !self.devices.contains(
            name,
        ) {
            return Err(Error::ConnectFailure);
        }
        let (ready, attempt) = once();
        let (updates, session) = bounded(CHANNEL_CAPACITY);
        let (stop_tx, stop) = once();
        self.connected_rx = Some(attempt);
        self.pending_device = Some(session);
        self.session_stop = Some(stop_tx);
        Ok(SessionEnds { ready, updates, stop })
    }

    /// Gives up the attempt or session that is held: drops its channels
    /// and sends its stop signal. Returns whether the task took the
    /// signal; it cannot where the task has ended already. The readings
    /// stay.
    pub fn disconnect(&mut self) -> (taken: bool)
        requires
            old(self).wf(),
        ensures
            final(self).wf(),
            final(self)@ == old(self)@.disconnected(),
            taken ==> old(self)@.session_stoppable,
    {
        self.connected_rx = None;
        self.pending_device = None;
        self.connected_device = None;
        let stop = self.session_stop.take();
        match stop {
            Some(tx) => send_once(tx, ()).is_ok(),
            None => false,
        }
    }

    /// Which screen to show: the readings once a session is held, the
    /// setup screen before.
    pub fn screen(&self) -> (screen: Screen)
        ensures
            screen == self@.screen(),
    {
        if self.connected_device.is_some() {
            Screen::Connected
        } else {
            Screen::Setup
        }
    }

    /// What the discovery button offers: to stop while a discovery is held,
    /// to start one otherwise.
    pub fn discovery_control(&self) -> (control: DiscoveryControl)
        ensures
            control == (if self@.discovering {
                DiscoveryControl::StopDiscovery
            } else {
                DiscoveryControl::Discover
            }),
    {
        if self.discover_rx.is_some() {
            DiscoveryControl::StopDiscovery
        } else {
            DiscoveryControl::Discover
        }
    }

    /// Whether a connection attempt is under way: the setup screen then
    /// shows a spinner in place of the devices.
    pub fn connecting(&self) -> (b: bool)
        ensures
            b == self@.connecting,
    {
        self.connected_rx.is_some()
    }

    /// The registered names, in the order in which they were first seen.
    pub fn device_names(&self) -> (names: Vec<String>)
        ensures
            names@.len() == self@.names.len(),
            forall|i: int| 0 <= i < names@.len() ==> (#[trigger] names@[i])@ == self@.names[i],
    {
        self.devices.list()
    }

    /// The latest speed in whole km/h.
    pub fn speed_kmh(&self) -> (v: u16)
        ensures
            v == self@.speed / 100,
    {
        self.current_speed / 100
    }

    /// The latest speed, in hundredths of km/h.
    pub fn speed(&self) -> (v: u16)
        ensures
            v == self@.speed,
    {
        self.current_speed
    }

    /// The latest power, in watts.
    pub fn power(&self) -> (v: u16)
        ensures
            v == self@.power,
    {
        self.current_power
    }

    /// Every speed received, oldest first.
    pub fn speed_history(&self) -> (history: &Vec<u16>)
        ensures
            history@ == self@.speeds,
    {
        &self.historical_speeds
    }

    /// Every power received, oldest first.
    pub fn power_history(&self) -> (history: &Vec<u16>)
        ensures
            history@ == self@.powers,
    {
        &self.historical_powers
    }

    /// The latest error that was reported to the consumer.
    pub fn last_error(&self) -> (error: Option<Error>)
        ensures
            error == self@.last_error,
    {
        self.last_error
    }
}

} // verus!
