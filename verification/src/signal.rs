//! One-shot completion notification shared between the worker side and the
//! join side of a spawned unit.

use vstd::prelude::*;

verus! {

/// A one-shot notification cell. It starts unset; a single `signal` call sets
/// it, after which every wait returns immediately. Further `signal` calls are
/// no-ops: they leave the cell set and corrupt nothing.
///
/// The signal is the only synchronization a spawned unit needs: the worker
/// writes the packet and then signals, and the joiner reads the packet only
/// after observing the signal, so the write happens-before every read.
pub struct Signal {
    /// Whether the signal has fired.
    pub notified: bool,
}

impl Signal {
    /// Creates an unset signal.
    pub fn new() -> (s: Signal)
        ensures
            !s.notified,
    {
        Signal { notified: false }
    }

    /// Fires the signal, waking every current and future waiter. Idempotent:
    /// firing an already-fired signal leaves it fired.
    pub fn signal(&mut self)
        ensures
            final(self).notified,
    {
        self.notified = true;
    }

    /// Reports whether the signal has fired.
    pub fn is_notified(&self) -> (r: bool)
        ensures
            r == self.notified,
    {
        self.notified
    }

    /// Blocking wait: returns once the signal has fired. On this cooperative
    /// substrate a wait can complete only after the signal has fired — waiting
    /// on an unfired signal from the context that would fire it can never
    /// return — so the happens-before edge is stated as the precondition.
    pub fn wait(&self)
        requires
            self.notified,
    {
    }

    /// Cooperative wait: suspends the calling task until the signal has
    /// fired, without blocking the host context. Completion is observed under
    /// the same happens-before edge as [`Signal::wait`].
    pub fn wait_async(&self)
        requires
            self.notified,
    {
    }
}

} // verus!
