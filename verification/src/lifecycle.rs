//! Bus lifecycle: what the device records of the events the host causes.
//!
//! The transport reports each bus event as it sees it. The handler keeps two
//! flags: whether the host has configured the device, and whether it has
//! suspended the bus. The second one is what the tag loop consults before it
//! asks for a remote wakeup.

use vstd::prelude::*;

verus! {

/// A bus event, as the transport observes it.
#[derive(Clone, Copy, Debug, PartialEq, Eq, Structural)]
pub enum BusEvent {
    /// The device was enabled or disabled.
    Enabled(bool),
    /// The host reset the bus.
    Reset,
    /// The host assigned the device an address.
    Addressed(u8),
    /// The host configured or deconfigured the device.
    Configured(bool),
    /// The host suspended the bus, or resumed it.
    Suspended(bool),
}

/// The two flags the handler keeps.
#[derive(Clone, Copy, Debug, PartialEq, Eq, Structural)]
pub struct BusState {
    pub configured: bool,
    pub suspended: bool,
}

/// The flags before any event: neither configured nor suspended.
pub open spec fn initial_state() -> BusState {
    BusState { configured: false, suspended: false }
}

/// The flags after one event.
pub open spec fn after_event(s: BusState, e: BusEvent) -> BusState {
    match e {
        BusEvent::Enabled(_) => BusState { configured: false, suspended: false },
        BusEvent::Reset => BusState { configured: false, suspended: s.suspended },
        BusEvent::Addressed(_) => BusState { configured: false, suspended: s.suspended },
        BusEvent::Configured(c) => BusState { configured: c, suspended: s.suspended },
        BusEvent::Suspended(v) => BusState { configured: s.configured, suspended: v },
    }
}

/// The flags after a run of events, oldest first.
pub open spec fn after_events(s: BusState, events: Seq<BusEvent>) -> BusState
    decreases events.len(),
{
    if events.len() == 0 {
        s
    } else {
        after_event(after_events(s, events.drop_last()), events.last())
    }
}

/// Whether an event writes the suspend flag.
pub open spec fn sets_suspend(e: BusEvent) -> bool {
    e is Suspended || e is Enabled
}

/// Reacts to bus events. It never blocks and has no effect besides its flags.
#[derive(Debug)]
pub struct DeviceHandler {
    state: BusState,
}

impl View for DeviceHandler {
    type V = BusState;

    closed spec fn view(&self) -> BusState {
        self.state
    }
}

impl DeviceHandler {
    /// A handler for a device that no event has reached yet.
    pub fn new() -> (h: DeviceHandler)
        ensures
            h@ == initial_state(),
    {
        DeviceHandler { state: BusState { configured: false, suspended: false } }
    }

    /// The device was enabled or disabled: it is neither configured nor
    /// suspended any more.
    pub fn enabled(&mut self, enabled: bool)
        ensures
            final(self)@ == after_event(old(self)@, BusEvent::Enabled(enabled)),
    {
        self.state.configured = false;
        self.state.suspended = false;
    }

    /// The bus was reset: the device is no longer configured.
    pub fn reset(&mut self)
        ensures
            final(self)@ == after_event(old(self)@, BusEvent::Reset),
    {
        self.state.configured = false;
    }

    /// An address was assigned: the device is not configured yet.
    pub fn addressed(&mut self, addr: u8)
        ensures
            final(self)@ == after_event(old(self)@, BusEvent::Addressed(addr)),
    {
        self.state.configured = false;
    }

    /// The host configured the device, or took its configuration away.
    pub fn configured(&mut self, configured: bool)
        ensures
            final(self)@ == after_event(old(self)@, BusEvent::Configured(configured)),
    {
        self.state.configured = configured;
    }

    /// The host suspended the bus, or resumed it.
    pub fn suspended(&mut self, suspended: bool)
        ensures
            final(self)@ == after_event(old(self)@, BusEvent::Suspended(suspended)),
    {
        if suspended {
            self.state.suspended = true;
        } else {
            self.state.suspended = false;
        }
    }

    /// Applies one event, whichever it is.
    pub fn handle(&mut self, event: BusEvent)
        ensures
            final(self)@ == after_event(old(self)@, event),
    {
        match event {
            BusEvent::Enabled(enabled) => self.enabled(enabled),
            BusEvent::Reset => self.reset(),
            BusEvent::Addressed(addr) => self.addressed(addr),
            BusEvent::Configured(configured) => self.configured(configured),
            BusEvent::Suspended(suspended) => self.suspended(suspended),
        }
    }

    /// Both flags.
    pub fn state(&self) -> (s: BusState)
        ensures
            s == self@,
    {
        self.state
    }

    /// Whether the host has suspended the bus.
    pub fn is_suspended(&self) -> (b: bool)
        ensures
            b == self@.suspended,
    {
        self.state.suspended
    }

    /// Whether the host has configured the device.
    pub fn is_configured(&self) -> (b: bool)
        ensures
            b == self@.configured,
    {
        self.state.configured
    }
}

/// The suspend flag is set exactly when the last event that writes it was a
/// suspension: after event `i`, which writes the flag, and any events behind
/// it that do not, the flag is set if and only if event `i` suspended the bus.
pub proof fn lemma_suspend_follows_last_write(s: BusState, events: Seq<BusEvent>, i: int)
    requires
        0 <= i < events.len(),
        sets_suspend(events[i]),
        forall|j: int| i < j < events.len() ==> !sets_suspend(#[trigger] events[j]),
    ensures
        after_events(s, events).suspended <==> events[i] == BusEvent::Suspended(true),
    decreases events.len(),
{
    if i < events.len() - 1 {
        assert(!sets_suspend(events[events.len() - 1]));
        lemma_suspend_follows_last_write(s, events.drop_last(), i);
    }
}

/// Events that do not write the suspend flag leave it as it was.
pub proof fn lemma_suspend_kept(s: BusState, events: Seq<BusEvent>)
    requires
        forall|j: int| 0 <= j < events.len() ==> !sets_suspend(#[trigger] events[j]),
    ensures
        after_events(s, events).suspended == s.suspended,
    decreases events.len(),
{
    if events.len() > 0 {
        assert(!sets_suspend(events[events.len() - 1]));
        lemma_suspend_kept(s, events.drop_last());
    }
}

} // verus!
