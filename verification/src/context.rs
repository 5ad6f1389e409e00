//! The transferable unit of work handed to a host worker, and the entry
//! point the worker runs it through.

use vstd::prelude::*;
use crate::handle::JoinInner;
use crate::messages::WorkerMessage;
use crate::outcome::Outcome;
use crate::outcome::resolve_phases;
use crate::outcome::spec_resolve_phases;
use crate::packet::Packet;
use crate::signal::Signal;

verus! {

/// A single-use unit of work for a destination worker: a callable that,
/// invoked once on that worker, yields the staged result of its synchronous
/// setup phase — either a captured failure, or the captured result of the
/// asynchronous execution phase. Ownership makes the cell single-use by
/// construction: running consumes it, and a context never run is dropped
/// whole, so its contents neither leak nor run twice.
pub struct WebWorkerContext<F> {
    /// The unit's callable; invoked exactly once, by the entry point.
    pub work: F,
}

impl<F> WebWorkerContext<F> {
    /// Builds the triple one spawn hands out: the transferable context for
    /// the destination worker, and the fresh signal and packet the spawning
    /// side keeps for the join.
    pub fn new<T>(work: F, scoped: bool) -> (r: (WebWorkerContext<F>, Signal, Packet<T>)) where
        F: FnOnce() -> Outcome<Outcome<T>>

        ensures
            r.0.work == work,
            !r.1.notified,
            r.2.result is None,
            r.2.scoped == scoped,
    {
        (WebWorkerContext { work }, Signal::new(), Packet::new(scoped))
    }
}

/// Entry point a host worker runs a redeemed context through: invokes the
/// unit's callable (consuming the context), resolves its two capture phases
/// into the single outcome, writes that outcome into the unit's packet,
/// fires the completion signal — in that order, so the write happens-before
/// every signal-gated read — and hands back the completion message for the
/// worker to post to the spawning side.
pub fn wasm_thread_entry_point<T, F: FnOnce() -> Outcome<Outcome<T>>>(
    ctx: WebWorkerContext<F>,
    inner: &mut JoinInner<T>,
) -> (msg: WorkerMessage)
    requires
        call_requires(ctx.work, ()),
        old(inner).packet.result is None,
    ensures
        final(inner).signal.notified,
        final(inner).packet.scoped == old(inner).packet.scoped,
        final(inner).packet.result is Some,
        exists|staged: Outcome<Outcome<T>>|
            call_ensures(ctx.work, (), staged) && final(inner).packet.result == Some(
                spec_resolve_phases(staged),
            ),
        msg is ThreadComplete,
{
    let WebWorkerContext { work } = ctx;
    let staged = work();
    let out = resolve_phases(staged);
    inner.packet.write(out);
    inner.signal.signal();
    WorkerMessage::ThreadComplete
}

} // verus!
