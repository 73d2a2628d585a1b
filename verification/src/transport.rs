//! The transport task as a state machine.
//!
//! While the bus runs the task drives the transport until the host suspends
//! the bus. While the bus is suspended it waits for whichever comes first:
//! the host resuming the bus, or a local wakeup request. On a request it
//! transmits a remote wakeup and waits for the outcome. A remote wakeup that
//! cannot be transmitted is the one failure the device does not survive.

use vstd::prelude::*;

verus! {

/// Where the transport task stands.
#[derive(Clone, Copy, Debug, PartialEq, Eq, Structural)]
pub enum TransportState {
    /// The bus is live; the transport runs until the host suspends it.
    Running,
    /// The bus is suspended; host resume and local wakeup race.
    Suspended,
    /// A remote wakeup is being transmitted.
    WakingUp,
    /// The remote wakeup failed; the device must shut down.
    Halted,
}

/// What the task was waiting for and has now happened.
#[derive(Clone, Copy, Debug, PartialEq, Eq, Structural)]
pub enum TransportEvent {
    /// The host suspended the bus.
    BusSuspended,
    /// The host resumed the bus.
    HostResumed,
    /// The wakeup request was raised and has been consumed.
    WakeupRequested,
    /// The remote wakeup was transmitted.
    WakeupSent,
    /// The remote wakeup could not be transmitted.
    WakeupFailed,
}

/// What the task does, and waits for, in a state.
#[derive(Clone, Copy, Debug, PartialEq, Eq, Structural)]
pub enum TransportAction {
    /// Run the transport until the host suspends the bus.
    RunUntilSuspend,
    /// Wait for the host to resume the bus or for a wakeup request.
    AwaitResumeOrWakeup,
    /// Transmit a remote wakeup and wait for the outcome.
    SendRemoteWakeup,
    /// Shut the device down.
    Halt,
}

/// The state that follows `s` on event `e`. An event that the task does not
/// wait for in `s` changes nothing.
pub open spec fn next_state(s: TransportState, e: TransportEvent) -> TransportState {
    match (s, e) {
        (TransportState::Running, TransportEvent::BusSuspended) => TransportState::Suspended,
        (TransportState::Suspended, TransportEvent::HostResumed) => TransportState::Running,
        (TransportState::Suspended, TransportEvent::WakeupRequested) => TransportState::WakingUp,
        (TransportState::WakingUp, TransportEvent::WakeupSent) => TransportState::Running,
        (TransportState::WakingUp, TransportEvent::WakeupFailed) => TransportState::Halted,
        _ => s,
    }
}

/// The action that belongs to a state.
pub open spec fn action_in(s: TransportState) -> TransportAction {
    match s {
        TransportState::Running => TransportAction::RunUntilSuspend,
        TransportState::Suspended => TransportAction::AwaitResumeOrWakeup,
        TransportState::WakingUp => TransportAction::SendRemoteWakeup,
        TransportState::Halted => TransportAction::Halt,
    }
}

/// The state after a run of events, oldest first.
pub open spec fn state_after(s: TransportState, events: Seq<TransportEvent>) -> TransportState
    decreases events.len(),
{
    if events.len() == 0 {
        s
    } else {
        next_state(state_after(s, events.drop_last()), events.last())
    }
}

/// How many remote wakeups a run of events makes the task transmit.
pub open spec fn wakeups_sent(s: TransportState, events: Seq<TransportEvent>) -> nat
    decreases events.len(),
{
    if events.len() == 0 {
        0
    } else {
        let before = state_after(s, events.drop_last());
        let earlier = wakeups_sent(s, events.drop_last());
        if before != TransportState::WakingUp && next_state(before, events.last())
            == TransportState::WakingUp {
            earlier + 1
        } else {
            earlier
        }
    }
}

/// How many wakeup requests a run of events holds.
pub open spec fn wakeup_requests(events: Seq<TransportEvent>) -> nat
    decreases events.len(),
{
    if events.len() == 0 {
        0
    } else if events.last() == TransportEvent::WakeupRequested {
        wakeup_requests(events.drop_last()) + 1
    } else {
        wakeup_requests(events.drop_last())
    }
}

/// The transport task.
#[derive(Debug)]
pub struct TransportTask {
    state: TransportState,
}

impl View for TransportTask {
    type V = TransportState;

    closed spec fn view(&self) -> TransportState {
        self.state
    }
}

impl TransportTask {
    /// A task for a live bus.
    pub fn new() -> (t: TransportTask)
        ensures
            t@ == TransportState::Running,
    {
        TransportTask { state: TransportState::Running }
    }

    /// The current state.
    pub fn state(&self) -> (s: TransportState)
        ensures
            s == self@,
    {
        self.state
    }

    /// What to do, and wait for, now.
    pub fn action(&self) -> (a: TransportAction)
        ensures
            a == action_in(self@),
    {
        match self.state {
            TransportState::Running => TransportAction::RunUntilSuspend,
            TransportState::Suspended => TransportAction::AwaitResumeOrWakeup,
            TransportState::WakingUp => TransportAction::SendRemoteWakeup,
            TransportState::Halted => TransportAction::Halt,
        }
    }

    /// Takes in what has happened and tells what to do next.
    pub fn step(&mut self, event: TransportEvent) -> (a: TransportAction)
        ensures
            final(self)@ == next_state(old(self)@, event),
            a == action_in(final(self)@),
    {
        let next = match (self.state, event) {
            (TransportState::Running, TransportEvent::BusSuspended) => TransportState::Suspended,
            (TransportState::Suspended, TransportEvent::HostResumed) => TransportState::Running,
            (TransportState::Suspended, TransportEvent::WakeupRequested) => TransportState::WakingUp,
            (TransportState::WakingUp, TransportEvent::WakeupSent) => TransportState::Running,
            (TransportState::WakingUp, TransportEvent::WakeupFailed) => TransportState::Halted,
            (state, _) => state,
        };
        self.state = next;
        self.action()
    }

    /// Whether the device must shut down.
    pub fn is_halted(&self) -> (b: bool)
        ensures
            b == (self@ == TransportState::Halted),
    {
        match self.state {
            TransportState::Halted => true,
            _ => false,
        }
    }
}

/// One consumed wakeup request on a suspended bus makes exactly one remote
/// wakeup cycle: the task transmits once, and is back on a live bus when the
/// transmission succeeded, halted when it failed. A host resume takes it
/// back without any transmission.
pub proof fn lemma_wakeup_cycle()
    ensures
        action_in(next_state(TransportState::Suspended, TransportEvent::WakeupRequested))
            == TransportAction::SendRemoteWakeup,
        state_after(
            TransportState::Suspended,
            seq![TransportEvent::WakeupRequested, TransportEvent::WakeupSent],
        ) == TransportState::Running,
        wakeups_sent(
            TransportState::Suspended,
            seq![TransportEvent::WakeupRequested, TransportEvent::WakeupSent],
        ) == 1,
        state_after(
            TransportState::Suspended,
            seq![TransportEvent::WakeupRequested, TransportEvent::WakeupFailed],
        ) == TransportState::Halted,
        state_after(TransportState::Suspended, seq![TransportEvent::HostResumed])
            == TransportState::Running,
        wakeups_sent(TransportState::Suspended, seq![TransportEvent::HostResumed]) == 0,
{
    let sent = seq![TransportEvent::WakeupRequested, TransportEvent::WakeupSent];
    let failed = seq![TransportEvent::WakeupRequested, TransportEvent::WakeupFailed];
    let first = seq![TransportEvent::WakeupRequested];
    let resumed = seq![TransportEvent::HostResumed];
    let none = Seq::<TransportEvent>::empty();
    assert(first.drop_last() =~= none);
    assert(resumed.drop_last() =~= none);
    assert(sent.drop_last() =~= first);
    assert(failed.drop_last() =~= first);
    assert(state_after(TransportState::Suspended, none) == TransportState::Suspended);
    assert(wakeups_sent(TransportState::Suspended, none) == 0);
    assert(state_after(TransportState::Suspended, first) == TransportState::WakingUp);
    assert(wakeups_sent(TransportState::Suspended, first) == 1);
}

/// Outside a suspended bus a wakeup request has no effect on the task, and
/// nothing takes a halted task anywhere else.
pub proof fn lemma_ignored_events(s: TransportState, e: TransportEvent)
    ensures
        s != TransportState::Suspended ==> next_state(s, TransportEvent::WakeupRequested) == s,
        next_state(TransportState::Halted, e) == TransportState::Halted,
{
}

/// The task transmits only on request: no run of events makes it send more
/// remote wakeups than it holds wakeup requests.
pub proof fn lemma_no_unrequested_wakeup(s: TransportState, events: Seq<TransportEvent>)
    ensures
        wakeups_sent(s, events) <= wakeup_requests(events),
    decreases events.len(),
{
    if events.len() > 0 {
        lemma_no_unrequested_wakeup(s, events.drop_last());
    }
}

} // verus!
