//! The result of one unit of work: the produced value, or the captured
//! failure payload raised by the unit's callable.

use vstd::prelude::*;

verus! {

/// What a spawned unit of work produced: either the value it computed or the
/// payload of the failure its callable raised. A raised failure is always
/// carried as a value — it never unwinds across the worker boundary, which
/// has no notion of unwinding.
pub enum Outcome<T> {
    /// The unit ran to completion and produced this value.
    Success(T),
    /// The unit's callable raised a failure with this payload.
    Failure(String),
}

impl<T> Outcome<T> {
    /// True when this outcome carries a captured failure.
    pub open spec fn spec_is_failure(self) -> bool {
        self is Failure
    }

    /// Reports whether this outcome carries a captured failure.
    pub fn is_failure(&self) -> (r: bool)
        ensures
            r == self.spec_is_failure(),
    {
        match self {
            Outcome::Success(_) => false,
            Outcome::Failure(_) => true,
        }
    }
}

/// What the two-phase execution of a unit amounts to. The callable is split
/// into a synchronous setup phase, which either fails or yields a suspendable
/// computation, and an asynchronous execution phase, whose own result is the
/// inner outcome. A failure in either phase gives an equivalent captured
/// failure; only a fully successful run yields the inner value.
pub open spec fn spec_resolve_phases<T>(staged: Outcome<Outcome<T>>) -> Outcome<T> {
    match staged {
        Outcome::Failure(payload) => Outcome::Failure(payload),
        Outcome::Success(inner) => inner,
    }
}

/// Collapses the two capture points of a unit's execution into the single
/// outcome its packet will carry: a failure raised during setup and a failure
/// raised during asynchronous execution are reported identically.
pub fn resolve_phases<T>(staged: Outcome<Outcome<T>>) -> (out: Outcome<T>)
    ensures
        out == spec_resolve_phases(staged),
{
    match staged {
        Outcome::Failure(payload) => Outcome::Failure(payload),
        Outcome::Success(inner) => inner,
    }
}

} // verus!
