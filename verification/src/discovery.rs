//! The background task of a device scan, as a step function.
//!
//! The task starts a scan for one service, then waits for whichever comes
//! first: the next advertisement or the consumer's stop signal. A sighting
//! that advertises the service is forwarded to the consumer, and the task
//! waits while the channel is full rather than drop it; any other sighting
//! is passed over. The stop signal ends the task before another sighting
//! is looked at.
//!
//! The driver performs the action it is given and reports what came of it
//! as the next event.

use vstd::prelude::*;
use crate::btuuid::advertises;
use crate::error::Error;

verus! {

/// Where a scan stands.
#[derive(Clone, Copy, Debug, PartialEq, Eq, Structural)]
pub enum DiscoveryPhase {
    /// The scan is being started.
    Starting,
    /// Waiting for the next sighting or the stop signal.
    Listening,
    /// A sighting is on its way to the consumer.
    Forwarding,
    /// The scan ran dry; only the stop signal is waited for.
    Drained,
    /// Ended: stopped by the consumer, or the consumer is gone.
    Stopped,
    /// The scan could not be started.
    Failed,
}

/// What the driver is to do next.
#[derive(Clone, Copy, Debug, PartialEq, Eq, Structural)]
pub enum DiscoveryAction {
    /// Start scanning for devices that advertise this service.
    StartScan { service: u128 },
    /// Wait for the next sighting or the stop signal, whichever is first.
    AwaitNext,
    /// Send the sighting just reported to the consumer, waiting while the
    /// channel is full.
    Forward,
    /// Wait for the stop signal.
    AwaitStop,
    /// End the task, which closes the channel.
    Finish,
    /// Report the error to the consumer and end the task.
    Fail(Error),
}

/// What the driver reports.
#[derive(Debug, PartialEq, Eq)]
pub enum DiscoveryEvent {
    /// The scan is running.
    ScanStarted,
    /// The scan could not be started.
    ScanFailed,
    /// A device was sighted that advertises these services.
    Sighting(Vec<u128>),
    /// The sighting was sent.
    Forwarded,
    /// The sighting could not be sent: the consumer dropped its receiver.
    ReceiverGone,
    /// The scan produced its last sighting.
    ScanEnded,
    /// The consumer's stop signal arrived.
    StopRequested,
}

/// An event as the contracts see it.
pub enum DiscoveryInput {
    ScanStarted,
    ScanFailed,
    Sighting(Seq<u128>),
    Forwarded,
    ReceiverGone,
    ScanEnded,
    StopRequested,
}

impl View for DiscoveryEvent {
    type V = DiscoveryInput;

    open spec fn view(&self) -> DiscoveryInput {
        match *self {
            DiscoveryEvent::ScanStarted => DiscoveryInput::ScanStarted,
            DiscoveryEvent::ScanFailed => DiscoveryInput::ScanFailed,
            DiscoveryEvent::Sighting(services) => DiscoveryInput::Sighting(services@),
            DiscoveryEvent::Forwarded => DiscoveryInput::Forwarded,
            DiscoveryEvent::ReceiverGone => DiscoveryInput::ReceiverGone,
            DiscoveryEvent::ScanEnded => DiscoveryInput::ScanEnded,
            DiscoveryEvent::StopRequested => DiscoveryInput::StopRequested,
        }
    }
}

impl DiscoveryInput {
    /// Whether this is a sighting of a device that advertises `service`.
    pub open spec fn sights(self, service: u128) -> bool {
        self matches DiscoveryInput::Sighting(services) && services.contains(service)
    }
}

/// The state of one scan task.
#[derive(Clone, Copy, Debug, PartialEq, Eq, Structural)]
pub struct Discovery {
    /// Where the scan stands.
    pub phase: DiscoveryPhase,
    /// The service that a device must advertise to be forwarded.
    pub service: u128,
}

impl DiscoveryPhase {
    /// Whether the task has ended.
    pub open spec fn is_terminal(self) -> bool {
        self is Stopped || self is Failed
    }
}

impl Discovery {
    /// A scan that is about to start.
    pub open spec fn spec_new(service: u128) -> Discovery {
        Discovery { phase: DiscoveryPhase::Starting, service }
    }

    /// The action that is outstanding.
    pub open spec fn spec_pending(self) -> DiscoveryAction {
        match self.phase {
            DiscoveryPhase::Starting => DiscoveryAction::StartScan { service: self.service },
            DiscoveryPhase::Listening => DiscoveryAction::AwaitNext,
            DiscoveryPhase::Forwarding => DiscoveryAction::Forward,
            DiscoveryPhase::Drained => DiscoveryAction::AwaitStop,
            DiscoveryPhase::Stopped => DiscoveryAction::Finish,
            DiscoveryPhase::Failed => DiscoveryAction::Fail(Error::ScanFailure),
        }
    }

    /// The same scan in another phase.
    pub open spec fn in_phase(self, phase: DiscoveryPhase) -> Discovery {
        Discovery { phase, ..self }
    }

    /// The scan entering `phase`, with that phase's action.
    pub open spec fn enter(self, phase: DiscoveryPhase) -> (Discovery, DiscoveryAction) {
        (self.in_phase(phase), self.in_phase(phase).spec_pending())
    }

    /// The phase that `input` leads to.
    ///
    /// An ended scan stays ended. The stop signal ends a live scan at once.
    /// An input that the phase does not wait for changes nothing.
    pub open spec fn next_phase(self, input: DiscoveryInput) -> DiscoveryPhase {
        if self.phase.is_terminal() {
            self.phase
        } else if input is StopRequested {
            DiscoveryPhase::Stopped
        } else {
            match (self.phase, input) {
                (DiscoveryPhase::Starting, DiscoveryInput::ScanStarted) => DiscoveryPhase::Listening,
                (DiscoveryPhase::Starting, DiscoveryInput::ScanFailed) => DiscoveryPhase::Failed,
                (DiscoveryPhase::Listening, DiscoveryInput::Sighting(services)) => {
                    if services.contains(self.service) {
                        DiscoveryPhase::Forwarding
                    } else {
                        DiscoveryPhase::Listening
                    }
                },
                (DiscoveryPhase::Listening, DiscoveryInput::ScanEnded) => DiscoveryPhase::Drained,
                (DiscoveryPhase::Forwarding, DiscoveryInput::Forwarded) => DiscoveryPhase::Listening,
                (DiscoveryPhase::Forwarding, DiscoveryInput::ReceiverGone) => DiscoveryPhase::Stopped,
                (phase, _) => phase,
            }
        }
    }

    /// The state after `input`, and the action the driver is to perform:
    /// the one that is outstanding in the phase that `input` leads to.
    pub open spec fn spec_step(self, input: DiscoveryInput) -> (Discovery, DiscoveryAction) {
        self.enter(self.next_phase(input))
    }

    /// The state after a whole run of inputs.
    pub open spec fn after(self, inputs: Seq<DiscoveryInput>) -> Discovery
        decreases inputs.len(),
    {
        if inputs.len() == 0 {
            self
        } else {
            self.after(inputs.drop_last()).spec_step(inputs.last()).0
        }
    }

    /// The action given for the input at index `i` of a run.
    pub open spec fn action_at(self, inputs: Seq<DiscoveryInput>, i: int) -> DiscoveryAction {
        self.after(inputs.take(i)).spec_step(inputs[i]).1
    }

    /// Begins a scan for devices that advertise `service`.
    pub fn new(service: u128) -> (d: Discovery)
        ensures
            d == Discovery::spec_new(service),
    {
        Discovery { phase: DiscoveryPhase::Starting, service }
    }

    /// The action that is outstanding: `StartScan` for a new scan.
    pub fn pending(&self) -> (action: DiscoveryAction)
        ensures
            action == self.spec_pending(),
    {
        match self.phase {
            DiscoveryPhase::Starting => DiscoveryAction::StartScan { service: self.service },
            DiscoveryPhase::Listening => DiscoveryAction::AwaitNext,
            DiscoveryPhase::Forwarding => DiscoveryAction::Forward,
            DiscoveryPhase::Drained => DiscoveryAction::AwaitStop,
            DiscoveryPhase::Stopped => DiscoveryAction::Finish,
            DiscoveryPhase::Failed => DiscoveryAction::Fail(Error::ScanFailure),
        }
    }

    /// Whether the task has ended.
    pub fn is_terminal(&self) -> (b: bool)
        ensures
            b == self.phase.is_terminal(),
    {
        match self.phase {
            DiscoveryPhase::Stopped => true,
            DiscoveryPhase::Failed => true,
            _ => false,
        }
    }

    /// Takes one event and says what to do next.
    pub fn step(&mut self, event: DiscoveryEvent) -> (action: DiscoveryAction)
        ensures
            (*final(self), action) == old(self).spec_step(event@),
    {
        if !self.is_terminal() {
            match event {
                DiscoveryEvent::StopRequested => {
                    self.phase = DiscoveryPhase::Stopped;
                },
                DiscoveryEvent::ScanStarted => match self.phase {
                    DiscoveryPhase::Starting => {
                        self.phase = DiscoveryPhase::Listening;
                    },
                    _ => {},
                },
                DiscoveryEvent::ScanFailed => match self.phase {
                    DiscoveryPhase::Starting => {
                        self.phase = DiscoveryPhase::Failed;
                    },
                    _ => {},
                },
                DiscoveryEvent::Sighting(services) => match self.phase {
                    DiscoveryPhase::Listening => {
                        if advertises(services.as_slice(), self.service) {
                            self.phase = DiscoveryPhase::Forwarding;
                        }
                    },
                    _ => {},
                },
                DiscoveryEvent::Forwarded => match self.phase {
                    DiscoveryPhase::Forwarding => {
                        self.phase = DiscoveryPhase::Listening;
                    },
                    _ => {},
                },
                DiscoveryEvent::ReceiverGone => match self.phase {
                    DiscoveryPhase::Forwarding => {
                        self.phase = DiscoveryPhase::Stopped;
                    },
                    _ => {},
                },
                DiscoveryEvent::ScanEnded => match self.phase {
                    DiscoveryPhase::Listening => {
                        self.phase = DiscoveryPhase::Drained;
                    },
                    _ => {},
                },
            }
        }
        self.pending()
    }
}

/// Running one input more is one step more.
pub proof fn after_push(start: Discovery, inputs: Seq<DiscoveryInput>, i: int)
    requires
        0 <= i < inputs.len(),
    ensures
        start.after(inputs.take(i + 1)) == start.after(inputs.take(i)).spec_step(inputs[i]).0,
        start.after(inputs.take(i + 1)).service == start.service,
    decreases i,
{
    assert(inputs.take(i + 1).drop_last() =~= inputs.take(i));
    assert(inputs.take(i + 1).last() == inputs[i]);
    if i > 0 {
        after_push(start, inputs, i - 1);
    } else {
        assert(inputs.take(0).len() == 0);
    }
}

/// A device is forwarded only if it advertises the service that the scan
/// was started for: in any run of a new scan, each `Forward` either answers
/// a sighting that advertises the service, or repeats the `Forward` before
/// it because that one is still outstanding.
pub proof fn forwards_only_advertisers(service: u128, inputs: Seq<DiscoveryInput>, i: int)
    requires
        0 <= i < inputs.len(),
        Discovery::spec_new(service).action_at(inputs, i) is Forward,
    ensures
        inputs[i].sights(service) || (i > 0 && Discovery::spec_new(service).action_at(
            inputs,
            i - 1,
        ) is Forward),
{
    let start = Discovery::spec_new(service);
    let before = start.after(inputs.take(i));
    if i > 0 {
        after_push(start, inputs, i - 1);
        assert(before == start.after(inputs.take(i - 1)).spec_step(inputs[i - 1]).0);
    } else {
        assert(inputs.take(0).len() == 0);
        assert(before == start);
    }
}

/// A sighting that does not advertise the service changes nothing, and is
/// answered with `Forward` only where an earlier forward is outstanding.
pub proof fn passes_over_others(scan: Discovery, services: Seq<u128>)
    requires
        !services.contains(scan.service),
    ensures
        !(scan.phase is Forwarding) ==> !(scan.spec_step(DiscoveryInput::Sighting(services)).1
            is Forward),
        scan.spec_step(DiscoveryInput::Sighting(services)).0 == scan,
{
}

/// Once the task has ended it stays ended, and asks for nothing but to
/// finish or to report its failure.
pub proof fn ended_stays_ended(scan: Discovery, inputs: Seq<DiscoveryInput>, i: int)
    requires
        scan.phase.is_terminal(),
        0 <= i <= inputs.len(),
    ensures
        scan.after(inputs.take(i)) == scan,
        i < inputs.len() ==> scan.action_at(inputs, i) == scan.spec_pending(),
        scan.spec_pending() is Finish || scan.spec_pending() is Fail,
    decreases i,
{
    if i > 0 {
        ended_stays_ended(scan, inputs, i - 1);
        after_push(scan, inputs, i - 1);
    } else {
        assert(inputs.take(0).len() == 0);
    }
}

/// After the stop signal has been observed no further device is forwarded:
/// every action from the stop signal on is `Finish`, or `Fail` where the
/// scan had failed before.
pub proof fn nothing_forwarded_after_stop(
    start: Discovery,
    inputs: Seq<DiscoveryInput>,
    i: int,
    j: int,
)
    requires
        0 <= i <= j < inputs.len(),
        inputs[i] is StopRequested,
    ensures
        start.action_at(inputs, j) is Finish || start.action_at(inputs, j) is Fail,
        start.after(inputs.take(j + 1)).phase.is_terminal(),
    decreases j - i,
{
    after_push(start, inputs, j);
    if j > i {
        nothing_forwarded_after_stop(start, inputs, i, j - 1);
    }
}

} // verus!
