//! The per-thread result cell: transports one unit's outcome from the worker
//! side to the join side, exactly once.

use vstd::prelude::*;
use crate::outcome::Outcome;

verus! {

/// The write-once result cell of one spawned unit. The worker side writes
/// exactly one outcome before firing the signal; the join side reads it out
/// exactly once afterwards. The cell needs no lock of its own: the signal's
/// happens-before order is the only synchronization required, since the one
/// write always precedes the signal and every read follows observing it.
pub struct Packet<T> {
    /// Whether this packet belongs to a scope whose bookkeeping it must feed
    /// at teardown.
    pub scoped: bool,
    /// The unit's outcome: empty until the worker writes it, empty again once
    /// the joiner has taken it.
    pub result: Option<Outcome<T>>,
}

impl<T> Packet<T> {
    /// True when the cell still holds a captured failure that no join ever
    /// read — the unhandled-failure condition checked at teardown.
    pub open spec fn holds_unread_failure(self) -> bool {
        self.result matches Some(out) && out is Failure
    }

    /// Creates the empty cell for one spawned unit.
    pub fn new(scoped: bool) -> (p: Packet<T>)
        ensures
            p.result is None,
            p.scoped == scoped,
    {
        Packet { scoped, result: None }
    }

    /// The worker side's single handoff: stores the unit's outcome. Write
    /// once — the cell must still be empty.
    pub fn write(&mut self, out: Outcome<T>)
        requires
            old(self).result is None,
        ensures
            final(self).result == Some(out),
            final(self).scoped == old(self).scoped,
    {
        self.result = Some(out);
    }

    /// Teardown of the cell, reporting whether it still held an unread
    /// failure. A scoped caller must feed the report into its scope's
    /// bookkeeping; for a detached unit an unread outcome is simply
    /// discarded.
    pub fn dispose(self) -> (unhandled_failure: bool)
        ensures
            unhandled_failure == self.holds_unread_failure(),
    {
        match self.result {
            Some(out) => out.is_failure(),
            None => false,
        }
    }
}

} // verus!
