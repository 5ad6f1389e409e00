//! The join surface: the internal pairing of one unit's signal and packet,
//! and the caller-facing handle that permits exactly one join.

use vstd::prelude::*;
use crate::outcome::Outcome;
use crate::outcome::spec_resolve_phases;
use crate::packet::Packet;
use crate::scope::ScopeData;
use crate::scope::spec_decrement;
use crate::signal::Signal;

verus! {

/// Internal join state of one spawned unit: its completion signal and its
/// result packet. The worker side fills both through the entry point; the
/// join side consumes them here.
pub struct JoinInner<T> {
    /// The unit's write-once result cell.
    pub packet: Packet<T>,
    /// The unit's one-shot completion signal.
    pub signal: Signal,
}

impl<T> JoinInner<T> {
    /// True once the unit's worker has written its outcome and fired the
    /// signal: the only state in which a join may read the packet.
    pub open spec fn is_completed(self) -> bool {
        self.signal.notified && self.packet.result is Some
    }

    /// True when the unit completed and its packet carries exactly `out`.
    pub open spec fn completed_with(self, out: Outcome<T>) -> bool {
        self.signal.notified && self.packet.result == Some(out)
    }

    /// Waits on the signal, then takes the sole outcome out of the packet —
    /// valid because this is the unique remaining holder by this point — and
    /// returns it. A captured failure is returned as a failure outcome, never
    /// re-raised.
    pub fn join(self) -> (r: Outcome<T>)
        requires
            self.is_completed(),
        ensures
            self.completed_with(r),
    {
        self.signal.wait();
        match self.packet.result {
            Some(out) => out,
            None => unreached(),
        }
    }

    /// As [`JoinInner::join`], waiting cooperatively instead of blocking.
    /// Consuming the handle makes the two joins mutually exclusive.
    pub fn join_async(self) -> (r: Outcome<T>)
        requires
            self.is_completed(),
        ensures
            self.completed_with(r),
    {
        self.signal.wait_async();
        match self.packet.result {
            Some(out) => out,
            None => unreached(),
        }
    }

    /// Teardown of a scoped unit's join state without a join: discards the
    /// packet — reporting a still-unread failure as unhandled — and only then
    /// feeds the scope's bookkeeping, so the result is gone before the scope
    /// learns the child is finished.
    pub fn discard_scoped(self, scope: &mut ScopeData)
        requires
            self.packet.scoped,
            old(scope).num_running_threads > 0,
        ensures
            *final(scope) == spec_decrement(*old(scope), self.packet.holds_unread_failure()),
    {
        let JoinInner { packet, signal: _ } = self;
        let unhandled_failure = packet.dispose();
        scope.decrement_num_running_threads(unhandled_failure);
    }
}

/// A completed unit determines its join result uniquely: whatever value the
/// worker wrote is the one every possible join observes — the joiner gets the
/// exact value produced, and, consuming the handle, gets it exactly once.
pub proof fn lemma_join_result_unique<T>(inner: JoinInner<T>, a: Outcome<T>, b: Outcome<T>)
    requires
        inner.completed_with(a),
        inner.completed_with(b),
    ensures
        a == b,
{
}

/// Successful work joins to its exact value: for a unit whose callable ran
/// both phases to success with value `v`, whatever a join of the completed
/// unit returns is exactly `Success(v)`.
pub proof fn lemma_join_success_exact<T>(
    inner: JoinInner<T>,
    staged: Outcome<Outcome<T>>,
    v: T,
    r: Outcome<T>,
)
    requires
        staged == Outcome::<Outcome<T>>::Success(Outcome::Success(v)),
        inner.completed_with(spec_resolve_phases(staged)),
        inner.completed_with(r),
    ensures
        r == Outcome::Success(v),
{
    lemma_join_result_unique(inner, spec_resolve_phases(staged), r);
}

/// A raised failure joins with its payload intact: for a unit whose callable
/// raised payload `p` in either phase, whatever a join of the completed unit
/// returns is a failure outcome carrying exactly `p`.
pub proof fn lemma_join_failure_payload<T>(
    inner: JoinInner<T>,
    staged: Outcome<Outcome<T>>,
    p: Seq<char>,
    r: Outcome<T>,
)
    requires
        (staged matches Outcome::Failure(q) && q@ == p) || (staged
            matches Outcome::Success(out) && out matches Outcome::Failure(q) && q@ == p),
        inner.completed_with(spec_resolve_phases(staged)),
        inner.completed_with(r),
    ensures
        r is Failure,
        r->Failure_0@ == p,
{
    lemma_join_result_unique(inner, spec_resolve_phases(staged), r);
}

/// An owned permission to join on a spawned unit. Exactly one of `join` or
/// `join_async` may be invoked, each consuming the handle; invoking neither
/// is legal and simply discards interest in the result.
pub struct JoinHandle<T>(pub JoinInner<T>);

impl<T> JoinHandle<T> {
    /// True once the unit's worker has completed; see
    /// [`JoinInner::is_completed`].
    pub open spec fn is_completed(self) -> bool {
        self.0.is_completed()
    }

    /// True when the unit completed with exactly `out`.
    pub open spec fn completed_with(self, out: Outcome<T>) -> bool {
        self.0.completed_with(out)
    }

    /// Waits for the associated unit to finish and returns its outcome.
    pub fn join(self) -> (r: Outcome<T>)
        requires
            self.is_completed(),
        ensures
            self.completed_with(r),
    {
        self.0.join()
    }

    /// Waits for the associated unit to finish asynchronously and returns
    /// its outcome.
    pub fn join_async(self) -> (r: Outcome<T>)
        requires
            self.is_completed(),
        ensures
            self.completed_with(r),
    {
        self.0.join_async()
    }
}

} // verus!
