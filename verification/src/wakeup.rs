//! The single-slot wakeup request between the tag loop and the transport.
//!
//! The tag loop raises the request when it finds the bus suspended; the
//! transport consumes it and performs a remote wakeup. The slot holds at
//! most one request: raising it again before it is consumed changes nothing.

use vstd::prelude::*;

verus! {

/// The slot after one request: a request is pending, whatever it held.
pub open spec fn after_signal(pending: bool) -> bool {
    true
}

/// The slot after `times` requests in a row.
pub open spec fn after_signals(pending: bool, times: nat) -> bool
    decreases times,
{
    if times == 0 {
        pending
    } else {
        after_signal(after_signals(pending, (times - 1) as nat))
    }
}

/// How many of `polls` successive attempts to consume find a request.
pub open spec fn requests_consumed(pending: bool, polls: nat) -> nat
    decreases polls,
{
    if polls == 0 {
        0
    } else if pending {
        1 + requests_consumed(false, (polls - 1) as nat)
    } else {
        requests_consumed(false, (polls - 1) as nat)
    }
}

/// A slot for one pending wakeup request.
#[derive(Debug)]
pub struct WakeupSignal {
    pending: bool,
}

impl View for WakeupSignal {
    type V = bool;

    /// Whether a request is pending.
    closed spec fn view(&self) -> bool {
        self.pending
    }
}

impl WakeupSignal {
    /// An empty slot.
    pub fn new() -> (s: WakeupSignal)
        ensures
            !s@,
    {
        WakeupSignal { pending: false }
    }

    /// Raises the request. A request that is already pending stays one
    /// request.
    pub fn signal(&mut self)
        ensures
            final(self)@ == after_signal(old(self)@),
    {
        self.pending = true;
    }

    /// Raises the request if the bus is suspended, and does nothing if it is
    /// not.
    pub fn request(&mut self, suspended: bool)
        ensures
            final(self)@ == (old(self)@ || suspended),
    {
        if suspended {
            self.signal();
        }
    }

    /// Consumes the request: tells whether one was pending and leaves the
    /// slot empty.
    pub fn take(&mut self) -> (fired: bool)
        ensures
            fired == old(self)@,
            !final(self)@,
    {
        let fired = self.pending;
        self.pending = false;
        fired
    }

    /// Whether a request is pending.
    pub fn is_pending(&self) -> (b: bool)
        ensures
            b == self@,
    {
        self.pending
    }
}

/// Requests coalesce: however often the request was raised before the
/// transport looks, the transport finds exactly one, and an empty slot
/// yields none.
pub proof fn lemma_requests_coalesce(pending: bool, times: nat, polls: nat)
    ensures
        times >= 1 ==> after_signals(pending, times),
        after_signals(pending, 0) == pending,
        polls >= 1 ==> requests_consumed(true, polls) == 1,
        requests_consumed(false, polls) == 0,
        times >= 1 && polls >= 1 ==> requests_consumed(after_signals(pending, times), polls) == 1,
    decreases polls,
{
    if polls >= 1 {
        lemma_requests_coalesce(pending, times, (polls - 1) as nat);
    }
}

} // verus!
