//! The background task of one device session, as a step function.
//!
//! A session is set up in four steps, each of which ends the whole attempt
//! when it fails: open the connection, find the fitness-machine service
//! among the device's services, find the indoor-bike-data characteristic
//! among that service's characteristics, and subscribe to it. After that
//! the task decodes each notification and hands the update on, until the
//! device disconnects, the receiver is dropped or a stop is requested.
//!
//! The task itself waits on the radio and on the channel; what it does next
//! is decided here. The driver performs the action it is given and reports
//! what came of it as the next event.

use vstd::prelude::*;
use crate::btuuid::{first_index, position};
use crate::error::Error;
use crate::telemetry::{decode, decoded, TrainerUpdate};

verus! {

/// Where a session stands.
#[derive(Clone, Copy, Debug, PartialEq, Eq, Structural)]
pub enum SessionPhase {
    /// The connection is being opened.
    Connecting,
    /// The device's services are being enumerated.
    ResolvingService,
    /// The characteristics of the service at this index are being enumerated.
    ResolvingCharacteristic { service: usize },
    /// The subscription to the characteristic at this index is being opened.
    Subscribing { characteristic: usize },
    /// Subscribed; waiting for the next notification.
    Listening,
    /// A decoded update is on its way to the consumer.
    Delivering(TrainerUpdate),
    /// Ended in the ordinary way.
    Closed,
    /// Setup failed; no session came to be.
    Failed(Error),
}

/// What the driver is to do next.
#[derive(Clone, Copy, Debug, PartialEq, Eq, Structural)]
pub enum SessionAction {
    /// Open the connection to the device.
    Connect,
    /// Enumerate the device's services and report their identifiers.
    DiscoverServices,
    /// Enumerate the characteristics of the service reported at this index.
    DiscoverCharacteristics { service: usize },
    /// Subscribe to the characteristic reported at this index.
    Subscribe { characteristic: usize },
    /// Wait for the next notification, after asking the display to refresh
    /// if `repaint` is set.
    Listen { repaint: bool },
    /// Send this update to the consumer, waiting while the channel is full.
    Deliver(TrainerUpdate),
    /// Log the error, pass the packet over and wait for the next
    /// notification: the session goes on.
    Skip(Error),
    /// Report the failed attempt to the consumer and end the task.
    Fail(Error),
    /// End the task, which closes the channel.
    Close,
}

/// What the driver reports.
#[derive(Debug, PartialEq, Eq)]
pub enum SessionEvent {
    /// The connection is open.
    Connected,
    /// The identifiers of the device's services, in the order enumerated.
    Services(Vec<u128>),
    /// The identifiers of the service's characteristics, in the order enumerated.
    Characteristics(Vec<u128>),
    /// Notifications are enabled.
    Subscribed,
    /// The operation that was asked for failed.
    Failed,
    /// A notification arrived with this payload.
    Notification(Vec<u8>),
    /// The notification stream produced an error in place of a payload.
    NotificationError,
    /// The update was sent.
    Delivered,
    /// The update could not be sent: the consumer dropped its receiver.
    ReceiverGone,
    /// The notification stream ended: the device is gone.
    Disconnected,
    /// The consumer asked for the session to end.
    StopRequested,
}

/// An event as the contracts see it.
pub enum SessionInput {
    Connected,
    Services(Seq<u128>),
    Characteristics(Seq<u128>),
    Subscribed,
    Failed,
    Notification(Seq<u8>),
    NotificationError,
    Delivered,
    ReceiverGone,
    Disconnected,
    StopRequested,
}

impl View for SessionEvent {
    type V = SessionInput;

    open spec fn view(&self) -> SessionInput {
        match *self {
            SessionEvent::Connected => SessionInput::Connected,
            SessionEvent::Services(ids) => SessionInput::Services(ids@),
            SessionEvent::Characteristics(ids) => SessionInput::Characteristics(ids@),
            SessionEvent::Subscribed => SessionInput::Subscribed,
            SessionEvent::Failed => SessionInput::Failed,
            SessionEvent::Notification(bytes) => SessionInput::Notification(bytes@),
            SessionEvent::NotificationError => SessionInput::NotificationError,
            SessionEvent::Delivered => SessionInput::Delivered,
            SessionEvent::ReceiverGone => SessionInput::ReceiverGone,
            SessionEvent::Disconnected => SessionInput::Disconnected,
            SessionEvent::StopRequested => SessionInput::StopRequested,
        }
    }
}

/// The state of one session task.
#[derive(Clone, Copy, Debug, PartialEq, Eq, Structural)]
pub struct Session {
    /// Where the session stands.
    pub phase: SessionPhase,
    /// The service to look for.
    pub service: u128,
    /// The characteristic to look for within that service.
    pub characteristic: u128,
}

impl SessionPhase {
    /// Whether the task has ended.
    pub open spec fn is_terminal(self) -> bool {
        self is Closed || self is Failed
    }

    /// Whether setup has succeeded and the task has not ended.
    pub open spec fn is_established(self) -> bool {
        self is Listening || self is Delivering
    }

    /// The error of the setup step that is under way, if one is.
    pub open spec fn step_error(self) -> Option<Error> {
        match self {
            SessionPhase::Connecting => Some(Error::ConnectFailure),
            SessionPhase::ResolvingService => Some(Error::ServiceNotFound),
            SessionPhase::ResolvingCharacteristic { .. } => Some(Error::CharacteristicNotFound),
            SessionPhase::Subscribing { .. } => Some(Error::SubscriptionFailure),
            _ => None,
        }
    }

    /// The action that is outstanding in this phase.
    pub open spec fn pending(self) -> SessionAction {
        match self {
            SessionPhase::Connecting => SessionAction::Connect,
            SessionPhase::ResolvingService => SessionAction::DiscoverServices,
            SessionPhase::ResolvingCharacteristic { service } => {
                SessionAction::DiscoverCharacteristics { service }
            },
            SessionPhase::Subscribing { characteristic } => {
                SessionAction::Subscribe { characteristic }
            },
            SessionPhase::Listening => SessionAction::Listen { repaint: false },
            SessionPhase::Delivering(update) => SessionAction::Deliver(update),
            SessionPhase::Closed => SessionAction::Close,
            SessionPhase::Failed(error) => SessionAction::Fail(error),
        }
    }
}

impl Session {
    /// A session that is about to connect.
    pub open spec fn spec_new(service: u128, characteristic: u128) -> Session {
        Session { phase: SessionPhase::Connecting, service, characteristic }
    }

    /// The same session in another phase.
    pub open spec fn in_phase(self, phase: SessionPhase) -> Session {
        Session { phase, ..self }
    }

    /// The session entering `phase`, with that phase's action.
    pub open spec fn enter(self, phase: SessionPhase) -> (Session, SessionAction) {
        (self.in_phase(phase), phase.pending())
    }

    /// The phase that follows when a list of identifiers was searched for
    /// `wanted`: `found` with the first index at which it stands, or
    /// failure with `missing`.
    pub open spec fn resolved(
        ids: Seq<u128>,
        wanted: u128,
        found: spec_fn(usize) -> SessionPhase,
        missing: Error,
    ) -> SessionPhase {
        match first_index(ids, wanted) {
            Some(i) => found(i as usize),
            None => SessionPhase::Failed(missing),
        }
    }

    /// The state after `input`, and the action the driver is to perform.
    ///
    /// An ended session stays as it is. A stop request ends a live session
    /// at once. A failure ends setup with the error of the step under way.
    /// A payload that does not decode is passed over. An input that the
    /// phase does not wait for changes nothing, and the outstanding action
    /// is asked for again.
    pub open spec fn spec_step(self, input: SessionInput) -> (Session, SessionAction) {
        if self.phase.is_terminal() {
            (self, self.phase.pending())
        } else if input is StopRequested {
            self.enter(SessionPhase::Closed)
        } else {
            match (self.phase, input) {
                (SessionPhase::Connecting, SessionInput::Connected) => self.enter(
                    SessionPhase::ResolvingService,
                ),
                (SessionPhase::ResolvingService, SessionInput::Services(ids)) => self.enter(
                    Self::resolved(
                        ids,
                        self.service,
                        |i: usize| SessionPhase::ResolvingCharacteristic { service: i },
                        Error::ServiceNotFound,
                    ),
                ),
                (
                    SessionPhase::ResolvingCharacteristic { .. },
                    SessionInput::Characteristics(ids),
                ) => self.enter(
                    Self::resolved(
                        ids,
                        self.characteristic,
                        |i: usize| SessionPhase::Subscribing { characteristic: i },
                        Error::CharacteristicNotFound,
                    ),
                ),
                (SessionPhase::Subscribing { .. }, SessionInput::Subscribed) => self.enter(
                    SessionPhase::Listening,
                ),
                (SessionPhase::Listening, SessionInput::Notification(bytes)) => match decoded(
                    bytes,
                ) {
                    Some(update) => self.enter(SessionPhase::Delivering(update)),
                    None => (self, SessionAction::Skip(Error::MalformedPayload)),
                },
                (SessionPhase::Listening, SessionInput::Disconnected) => self.enter(
                    SessionPhase::Closed,
                ),
                (SessionPhase::Delivering(_), SessionInput::Delivered) => (
                    self.in_phase(SessionPhase::Listening),
                    SessionAction::Listen { repaint: true },
                ),
                (SessionPhase::Delivering(_), SessionInput::ReceiverGone) => self.enter(
                    SessionPhase::Closed,
                ),
                (phase, SessionInput::Failed) => match phase.step_error() {
                    Some(error) => self.enter(SessionPhase::Failed(error)),
                    None => (self, self.phase.pending()),
                },
                _ => (self, self.phase.pending()),
            }
        }
    }

    /// The state after a whole run of inputs.
    pub open spec fn after(self, inputs: Seq<SessionInput>) -> Session
        decreases inputs.len(),
    {
        if inputs.len() == 0 {
            self
        } else {
            self.after(inputs.drop_last()).spec_step(inputs.last()).0
        }
    }

    /// The action given for the input at index `i` of a run.
    pub open spec fn action_at(self, inputs: Seq<SessionInput>, i: int) -> SessionAction {
        self.after(inputs.take(i)).spec_step(inputs[i]).1
    }

    /// The updates that a run of inputs has the driver deliver, in order.
    pub open spec fn deliveries(self, inputs: Seq<SessionInput>) -> Seq<TrainerUpdate>
        decreases inputs.len(),
    {
        if inputs.len() == 0 {
            Seq::empty()
        } else {
            let earlier = self.deliveries(inputs.drop_last());
            match self.after(inputs.drop_last()).spec_step(inputs.last()).1 {
                SessionAction::Deliver(update) => earlier.push(update),
                _ => earlier,
            }
        }
    }

    /// Begins a session that looks for `characteristic` within `service`.
    pub fn new(service: u128, characteristic: u128) -> (s: Session)
        ensures
            s == Session::spec_new(service, characteristic),
    {
        Session { phase: SessionPhase::Connecting, service, characteristic }
    }

    /// The action that is outstanding: `Connect` for a new session.
    pub fn pending(&self) -> (action: SessionAction)
        ensures
            action == self.phase.pending(),
    {
        match self.phase {
            SessionPhase::Connecting => SessionAction::Connect,
            SessionPhase::ResolvingService => SessionAction::DiscoverServices,
            SessionPhase::ResolvingCharacteristic { service } => {
                SessionAction::DiscoverCharacteristics { service }
            },
            SessionPhase::Subscribing { characteristic } => {
                SessionAction::Subscribe { characteristic }
            },
            SessionPhase::Listening => SessionAction::Listen { repaint: false },
            SessionPhase::Delivering(update) => SessionAction::Deliver(update),
            SessionPhase::Closed => SessionAction::Close,
            SessionPhase::Failed(error) => SessionAction::Fail(error),
        }
    }

    /// Whether the task has ended, in either way.
    pub fn is_terminal(&self) -> (b: bool)
        ensures
            b == self.phase.is_terminal(),
    {
        match self.phase {
            SessionPhase::Closed => true,
            SessionPhase::Failed(_) => true,
            _ => false,
        }
    }

    /// Whether setup has succeeded and the task has not ended: from then on
    /// the consumer holds the receiving half of the update channel.
    pub fn is_established(&self) -> (b: bool)
        ensures
            b == self.phase.is_established(),
    {
        match self.phase {
            SessionPhase::Listening => true,
            SessionPhase::Delivering(_) => true,
            _ => false,
        }
    }

    fn enter_phase(&mut self, phase: SessionPhase) -> (action: SessionAction)
        ensures
            (*final(self), action) == old(self).enter(phase),
    {
        self.phase = phase;
        self.pending()
    }

    /// Takes one event and says what to do next.
    pub fn step(&mut self, event: SessionEvent) -> (action: SessionAction)
        ensures
            (*final(self), action) == old(self).spec_step(event@),
    {
        if self.is_terminal() {
            return self.pending();
        }
        match event {
            SessionEvent::StopRequested => self.enter_phase(SessionPhase::Closed),
            SessionEvent::Connected => match self.phase {
                SessionPhase::Connecting => self.enter_phase(SessionPhase::ResolvingService),
                _ => self.pending(),
            },
            SessionEvent::Services(ids) => match self.phase {
                SessionPhase::ResolvingService => match position(ids.as_slice(), self.service) {
                    Some(i) => self.enter_phase(
                        SessionPhase::ResolvingCharacteristic { service: i },
                    ),
                    None => self.enter_phase(SessionPhase::Failed(Error::ServiceNotFound)),
                },
                _ => self.pending(),
            },
            SessionEvent::Characteristics(ids) => match self.phase {
                SessionPhase::ResolvingCharacteristic { .. } => match position(
                    ids.as_slice(),
                    self.characteristic,
                ) {
                    Some(i) => self.enter_phase(SessionPhase::Subscribing { characteristic: i }),
                    None => self.enter_phase(
                        SessionPhase::Failed(Error::CharacteristicNotFound),
                    ),
                },
                _ => self.pending(),
            },
            SessionEvent::Subscribed => match self.phase {
                SessionPhase::Subscribing { .. } => self.enter_phase(SessionPhase::Listening),
                _ => self.pending(),
            },
            SessionEvent::Failed => match self.phase {
                SessionPhase::Connecting => self.enter_phase(
                    SessionPhase::Failed(Error::ConnectFailure),
                ),
                SessionPhase::ResolvingService => self.enter_phase(
                    SessionPhase::Failed(Error::ServiceNotFound),
                ),
                SessionPhase::ResolvingCharacteristic { .. } => self.enter_phase(
                    SessionPhase::Failed(Error::CharacteristicNotFound),
                ),
                SessionPhase::Subscribing { .. } => self.enter_phase(
                    SessionPhase::Failed(Error::SubscriptionFailure),
                ),
                _ => self.pending(),
            },
            SessionEvent::Notification(bytes) => match self.phase {
                SessionPhase::Listening => match decode(bytes.as_slice()) {
                    Ok(update) => self.enter_phase(SessionPhase::Delivering(update)),
                    Err(error) => SessionAction::Skip(error),
                },
                _ => self.pending(),
            },
            SessionEvent::NotificationError => self.pending(),
            SessionEvent::Delivered => match self.phase {
                SessionPhase::Delivering(_) => {
                    self.phase = SessionPhase::Listening;
                    SessionAction::Listen { repaint: true }
                },
                _ => self.pending(),
            },
            SessionEvent::ReceiverGone => match self.phase {
                SessionPhase::Delivering(_) => self.enter_phase(SessionPhase::Closed),
                _ => self.pending(),
            },
            SessionEvent::Disconnected => match self.phase {
                SessionPhase::Listening => self.enter_phase(SessionPhase::Closed),
                _ => self.pending(),
            },
        }
    }
}

impl SessionPhase {
    /// How many setup steps lie behind a live phase.
    pub open spec fn progress(self) -> nat {
        match self {
            SessionPhase::Connecting => 0,
            SessionPhase::ResolvingService => 1,
            SessionPhase::ResolvingCharacteristic { .. } => 2,
            SessionPhase::Subscribing { .. } => 3,
            _ => 4,
        }
    }
}

impl SessionInput {
    /// Whether this input completes setup step number `step` of a session
    /// that looks for `characteristic` within `service`: the connection is
    /// open, the service was found, the characteristic was found, the
    /// subscription is open.
    pub open spec fn completes(self, step: nat, service: u128, characteristic: u128) -> bool {
        if step == 1 {
            self is Connected
        } else if step == 2 {
            self matches SessionInput::Services(ids) && ids.contains(service)
        } else if step == 3 {
            self matches SessionInput::Characteristics(ids) && ids.contains(characteristic)
        } else if step == 4 {
            self is Subscribed
        } else {
            false
        }
    }
}

/// Whether the first `n` inputs hold, in this order, inputs that complete
/// the setup steps 1 to `steps`.
pub open spec fn setup_done(
    inputs: Seq<SessionInput>,
    n: int,
    steps: nat,
    service: u128,
    characteristic: u128,
) -> bool
    decreases steps,
{
    steps == 0 || exists|k: int|
        0 <= k < n && k < inputs.len() && #[trigger] inputs[k].completes(
            steps,
            service,
            characteristic,
        ) && setup_done(inputs, k, (steps - 1) as nat, service, characteristic)
}

/// Running one input more is one step more.
pub proof fn session_after_push(start: Session, inputs: Seq<SessionInput>, i: int)
    requires
        0 <= i < inputs.len(),
    ensures
        start.after(inputs.take(i + 1)) == start.after(inputs.take(i)).spec_step(inputs[i]).0,
        start.after(inputs.take(i + 1)).service == start.service,
        start.after(inputs.take(i + 1)).characteristic == start.characteristic,
    decreases i,
{
    assert(inputs.take(i + 1).drop_last() =~= inputs.take(i));
    assert(inputs.take(i + 1).last() == inputs[i]);
    if i > 0 {
        session_after_push(start, inputs, i - 1);
    } else {
        assert(inputs.take(0).len() == 0);
    }
}

/// Running two runs one after the other is running their concatenation.
pub proof fn session_after_concat(
    start: Session,
    first: Seq<SessionInput>,
    second: Seq<SessionInput>,
)
    ensures
        start.after(first + second) == start.after(first).after(second),
        start.deliveries(first + second) == start.deliveries(first) + start.after(
            first,
        ).deliveries(second),
    decreases second.len(),
{
    if second.len() == 0 {
        assert(first + second =~= first);
        assert(start.deliveries(first) + Seq::<TrainerUpdate>::empty() =~= start.deliveries(
            first,
        ));
    } else {
        assert((first + second).drop_last() =~= first + second.drop_last());
        assert((first + second).last() == second.last());
        session_after_concat(start, first, second.drop_last());
        let earlier = start.deliveries(first) + start.after(first).deliveries(
            second.drop_last(),
        );
        match start.after(first + second.drop_last()).spec_step(second.last()).1 {
            SessionAction::Deliver(update) => {
                assert(earlier.push(update) =~= start.deliveries(first) + start.after(
                    first,
                ).deliveries(second.drop_last()).push(update));
            },
            _ => {},
        }
    }
}

/// No partial session is valid: once the task has ended it stays ended. A
/// failed attempt answers every further input with the same error, a
/// closed session with `Close`, and neither delivers anything.
pub proof fn ended_session_stays_ended(session: Session, inputs: Seq<SessionInput>, i: int)
    requires
        session.phase.is_terminal(),
        0 <= i <= inputs.len(),
    ensures
        session.after(inputs.take(i)) == session,
        i < inputs.len() ==> session.action_at(inputs, i) == session.phase.pending(),
        session.phase matches SessionPhase::Failed(error) ==> session.phase.pending()
            == SessionAction::Fail(error),
        session.phase is Closed ==> session.phase.pending() == SessionAction::Close,
    decreases i,
{
    if i > 0 {
        ended_session_stays_ended(session, inputs, i - 1);
        session_after_push(session, inputs, i - 1);
    } else {
        assert(inputs.take(0).len() == 0);
    }
}

/// A failed setup step fails the whole attempt with the error of that
/// step, whatever the step was.
pub proof fn failure_ends_setup(session: Session)
    requires
        session.phase.step_error() is Some,
    ensures
        session.spec_step(SessionInput::Failed) == (
            session.in_phase(SessionPhase::Failed(session.phase.step_error()->Some_0)),
            SessionAction::Fail(session.phase.step_error()->Some_0),
        ),
        session.phase is Connecting ==> session.phase.step_error() == Some(
            Error::ConnectFailure,
        ),
        session.phase is ResolvingService ==> session.phase.step_error() == Some(
            Error::ServiceNotFound,
        ),
        session.phase is ResolvingCharacteristic ==> session.phase.step_error() == Some(
            Error::CharacteristicNotFound,
        ),
        session.phase is Subscribing ==> session.phase.step_error() == Some(
            Error::SubscriptionFailure,
        ),
{
}

/// After a stop request nothing more is delivered: every action from the
/// request on is `Close`, or `Fail` where setup had failed before.
pub proof fn nothing_delivered_after_stop(
    start: Session,
    inputs: Seq<SessionInput>,
    i: int,
    j: int,
)
    requires
        0 <= i <= j < inputs.len(),
        inputs[i] is StopRequested,
    ensures
        start.action_at(inputs, j) is Close || start.action_at(inputs, j) is Fail,
        start.after(inputs.take(j + 1)).phase.is_terminal(),
    decreases j - i,
{
    session_after_push(start, inputs, j);
    if j > i {
        nothing_delivered_after_stop(start, inputs, i, j - 1);
    }
}

/// Setup steps that lie within the first `n` inputs lie within the first
/// `m` as well, for `n <= m`.
pub proof fn setup_done_later(
    inputs: Seq<SessionInput>,
    n: int,
    m: int,
    steps: nat,
    service: u128,
    characteristic: u128,
)
    requires
        n <= m,
        setup_done(inputs, n, steps, service, characteristic),
    ensures
        setup_done(inputs, m, steps, service, characteristic),
{
    if steps > 0 {
        let k = choose|k: int|
            0 <= k < n && k < inputs.len() && #[trigger] inputs[k].completes(
                steps,
                service,
                characteristic,
            ) && setup_done(inputs, k, (steps - 1) as nat, service, characteristic);
        assert(0 <= k < m && inputs[k].completes(steps, service, characteristic));
    }
}

/// A live session has gone through every setup step that lies behind its
/// phase, in order: the run of a new session that is still alive after `n`
/// inputs holds an input for each of those steps.
pub proof fn live_session_was_set_up(
    service: u128,
    characteristic: u128,
    inputs: Seq<SessionInput>,
    n: int,
)
    requires
        0 <= n <= inputs.len(),
        !Session::spec_new(service, characteristic).after(inputs.take(n)).phase.is_terminal(),
    ensures
        setup_done(
            inputs,
            n,
            Session::spec_new(service, characteristic).after(inputs.take(n)).phase.progress(),
            service,
            characteristic,
        ),
    decreases n,
{
    let start = Session::spec_new(service, characteristic);
    if n == 0 {
        assert(inputs.take(0).len() == 0);
    } else {
        session_after_push(start, inputs, n - 1);
        let before = start.after(inputs.take(n - 1));
        let now = start.after(inputs.take(n));
        if n > 1 {
            session_after_push(start, inputs, n - 2);
        } else {
            assert(inputs.take(0).len() == 0);
        }
        assert(before.service == service && before.characteristic == characteristic);
        assert(now == before.spec_step(inputs[n - 1]).0);
        assert(!before.phase.is_terminal());
        live_session_was_set_up(service, characteristic, inputs, n - 1);
        let done = before.phase.progress();
        if now.phase.progress() == done {
            setup_done_later(inputs, n - 1, n, done, service, characteristic);
        } else {
            crate::btuuid::first_index_some_iff_contains(
                inputs[n - 1]->Services_0,
                service,
            );
            crate::btuuid::first_index_some_iff_contains(
                inputs[n - 1]->Characteristics_0,
                characteristic,
            );
            assert(now.phase.progress() == done + 1);
            assert(inputs[n - 1].completes(done + 1, service, characteristic));
        }
    }
}

/// No telemetry without a whole setup: where a new session is asked to
/// deliver an update, the inputs before hold, in this order, an opened
/// connection, a service list with the service, a characteristic list
/// with the characteristic, and an opened subscription.
pub proof fn delivery_needs_setup(
    service: u128,
    characteristic: u128,
    inputs: Seq<SessionInput>,
    i: int,
)
    requires
        0 <= i < inputs.len(),
        Session::spec_new(service, characteristic).action_at(inputs, i) is Deliver,
    ensures
        setup_done(inputs, i, 4, service, characteristic),
{
    let start = Session::spec_new(service, characteristic);
    let before = start.after(inputs.take(i));
    assert(before.phase.is_established());
    live_session_was_set_up(service, characteristic, inputs, i);
}

/// What is delivered is what was decoded: each `Deliver` of a new session
/// either answers a notification whose payload decodes to that update, or
/// repeats the `Deliver` before it because that one is still outstanding.
pub proof fn delivers_only_decoded(
    service: u128,
    characteristic: u128,
    inputs: Seq<SessionInput>,
    i: int,
)
    requires
        0 <= i < inputs.len(),
        Session::spec_new(service, characteristic).action_at(inputs, i) is Deliver,
    ensures
        ({
            let start = Session::spec_new(service, characteristic);
            let update = start.action_at(inputs, i)->Deliver_0;
            ||| inputs[i] matches SessionInput::Notification(bytes) && decoded(bytes) == Some(
                update,
            )
            ||| i > 0 && start.action_at(inputs, i - 1) == SessionAction::Deliver(update)
        }),
{
    let start = Session::spec_new(service, characteristic);
    if i > 0 {
        session_after_push(start, inputs, i - 1);
    } else {
        assert(inputs.take(0).len() == 0);
    }
}

/// The inputs of a driver that reports each payload as it arrives and,
/// where an update was to be delivered, that it was sent.
pub open spec fn reported(payloads: Seq<Seq<u8>>) -> Seq<SessionInput>
    decreases payloads.len(),
{
    if payloads.len() == 0 {
        Seq::empty()
    } else {
        let earlier = reported(payloads.drop_last()).push(
            SessionInput::Notification(payloads.last()),
        );
        if decoded(payloads.last()) is Some {
            earlier.push(SessionInput::Delivered)
        } else {
            earlier
        }
    }
}

/// The updates that a run of payloads holds: the decodings of those that
/// are long enough, in the order of arrival.
pub open spec fn updates(payloads: Seq<Seq<u8>>) -> Seq<TrainerUpdate>
    decreases payloads.len(),
{
    if payloads.len() == 0 {
        Seq::empty()
    } else {
        match decoded(payloads.last()) {
            Some(update) => updates(payloads.drop_last()).push(update),
            None => updates(payloads.drop_last()),
        }
    }
}

/// Updates reach the consumer in the order in which the device sent them,
/// each once, and a malformed payload costs only itself: a listening
/// session that is shown a run of payloads delivers exactly the decodings
/// of the well-formed ones, in order, and is listening again afterwards.
pub proof fn delivers_in_order(session: Session, payloads: Seq<Seq<u8>>)
    requires
        session.phase is Listening,
    ensures
        session.deliveries(reported(payloads)) == updates(payloads),
        session.after(reported(payloads)) == session,
    decreases payloads.len(),
{
    if payloads.len() > 0 {
        let earlier = reported(payloads.drop_last());
        let last = payloads.last();
        delivers_in_order(session, payloads.drop_last());
        let round = if decoded(last) is Some {
            seq![SessionInput::Notification(last), SessionInput::Delivered]
        } else {
            seq![SessionInput::Notification(last)]
        };
        assert(reported(payloads) =~= earlier + round);
        session_after_concat(session, earlier, round);
        let heard = seq![SessionInput::Notification(last)];
        assert(heard.drop_last() =~= Seq::<SessionInput>::empty());
        assert(session.after(heard.drop_last()) == session);
        assert(session.deliveries(heard.drop_last()) =~= Seq::<TrainerUpdate>::empty());
        if decoded(last) is Some {
            let update = decoded(last)->Some_0;
            assert(round.drop_last() =~= heard);
            assert(session.after(heard) == session.in_phase(SessionPhase::Delivering(update)));
            assert(session.deliveries(heard) =~= seq![update]);
            assert(session.after(round) == session);
            assert(session.deliveries(round) =~= seq![update]);
            assert(updates(payloads.drop_last()) + seq![update] =~= updates(
                payloads.drop_last(),
            ).push(update));
        } else {
            assert(round =~= heard);
            assert(session.after(round) == session);
            assert(session.deliveries(round) =~= Seq::<TrainerUpdate>::empty());
            assert(updates(payloads.drop_last()) + Seq::<TrainerUpdate>::empty() =~= updates(
                payloads.drop_last(),
            ));
        }
    }
}

} // verus!
