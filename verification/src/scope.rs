//! Shared bookkeeping for a lexical grouping of spawned units: how many
//! children are still running, whether any of them failed, and the signal
//! that fires when the last child is done.

use vstd::prelude::*;
use crate::signal::Signal;

verus! {

/// Fatal misuse: a scope's running-count was driven within overflow range of
/// wraparound, which can only happen by leaking an unbounded number of
/// unjoined scoped handles. The scope must abort rather than risk the count
/// wrapping to zero while children are still alive.
pub struct ScopeOverflow;

/// The shared state of one scope: the number of not-yet-completed children,
/// the sticky flag recording that some child failed, and the completion
/// signal fired when the count returns to zero.
pub struct ScopeData {
    /// Children that have started and not yet torn down.
    pub num_running_threads: usize,
    /// Sticky: set when a child's failure went unhandled, never cleared.
    pub a_thread_panicked: bool,
    /// Fires exactly when the running-count returns to zero.
    pub signal: Signal,
}

/// One child's teardown, as a transformation of the scope state: the count
/// drops by one, the sticky flag absorbs this child's failure, and the
/// completion signal fires if this was the last child.
pub open spec fn spec_decrement(s: ScopeData, failed: bool) -> ScopeData {
    ScopeData {
        num_running_threads: (s.num_running_threads - 1) as usize,
        a_thread_panicked: s.a_thread_panicked || failed,
        signal: Signal { notified: s.signal.notified || s.num_running_threads == 1 },
    }
}

/// A whole sequence of child teardowns, first to last.
pub open spec fn spec_run(s: ScopeData, fails: Seq<bool>) -> ScopeData
    decreases fails.len(),
{
    if fails.len() == 0 {
        s
    } else {
        spec_run(spec_decrement(s, fails[0]), fails.drop_first())
    }
}

impl ScopeData {
    /// Creates a scope with no children yet: count zero, no failure recorded,
    /// completion signal unfired.
    pub fn new() -> (s: ScopeData)
        ensures
            s.num_running_threads == 0,
            !s.a_thread_panicked,
            !s.signal.notified,
    {
        ScopeData { num_running_threads: 0, a_thread_panicked: false, signal: Signal::new() }
    }

    /// Registers one child about to start. Refused as fatal misuse — before
    /// any wraparound can occur — once the count passes half of the maximum,
    /// so that even pathological leaks of outstanding children can never wrap
    /// the counter to zero while children remain alive. On refusal the scope
    /// state is unchanged; the caller must abort scope execution.
    pub fn increment_num_running_threads(&mut self) -> (r: Result<(), ScopeOverflow>)
        ensures
            old(self).num_running_threads <= usize::MAX / 2 ==> r is Ok,
            old(self).num_running_threads > usize::MAX / 2 ==> r is Err,
            r is Ok ==> *final (self) == (ScopeData {
                num_running_threads: (old(self).num_running_threads + 1) as usize,
                ..*old(self)
            }),
            r is Err ==> *final (self) == *old(self),
    {
        if self.num_running_threads > usize::MAX / 2 {
            Err(ScopeOverflow)
        } else {
            self.num_running_threads = self.num_running_threads + 1;
            Ok(())
        }
    }

    /// Tears one child down: called exactly once per child. Records this
    /// child's failure in the sticky flag and fires the completion signal if
    /// this was the last outstanding child.
    pub fn decrement_num_running_threads(&mut self, panic: bool)
        requires
            old(self).num_running_threads > 0,
        ensures
            *final (self) == spec_decrement(*old(self), panic),
    {
        if panic {
            self.a_thread_panicked = true;
        }
        let last = self.num_running_threads == 1;
        self.num_running_threads = self.num_running_threads - 1;
        if last {
            self.signal.signal();
        }
    }

    /// Reports how many children are still outstanding.
    pub fn running_count(&self) -> (n: usize)
        ensures
            n == self.num_running_threads,
    {
        self.num_running_threads
    }

    /// Reports whether some child's failure went unhandled.
    pub fn has_panicked(&self) -> (r: bool)
        ensures
            r == self.a_thread_panicked,
    {
        self.a_thread_panicked
    }
}

/// Commutative completion, the firing half: for a scope whose completion
/// signal is unfired and whose count equals the number of children about to
/// tear down, the signal fires once all of them have decremented — whatever
/// each child reports and in whatever order they finish.
pub proof fn lemma_scope_completion(s: ScopeData, fails: Seq<bool>)
    requires
        !s.signal.notified,
        s.num_running_threads == fails.len(),
        fails.len() > 0,
    ensures
        spec_run(s, fails).signal.notified,
        spec_run(s, fails).num_running_threads == 0,
    decreases fails.len(),
{
    if fails.len() == 1 {
        assert(spec_run(s, fails) == spec_run(spec_decrement(s, fails[0]), fails.drop_first()));
    } else {
        lemma_scope_completion(spec_decrement(s, fails[0]), fails.drop_first());
    }
}

/// Commutative completion, the not-yet half: while some child has not torn
/// down, the completion signal stays unfired, whatever the others reported
/// and in whatever order they finished.
pub proof fn lemma_no_early_completion(s: ScopeData, fails: Seq<bool>)
    requires
        !s.signal.notified,
        s.num_running_threads > fails.len(),
    ensures
        !spec_run(s, fails).signal.notified,
        spec_run(s, fails).num_running_threads == s.num_running_threads - fails.len(),
    decreases fails.len(),
{
    if fails.len() > 0 {
        lemma_no_early_completion(spec_decrement(s, fails[0]), fails.drop_first());
    }
}

/// The sticky failure flag is monotonic: once set, it stays set through every
/// later teardown, however many children still complete successfully.
pub proof fn lemma_failure_flag_monotonic(s: ScopeData, fails: Seq<bool>)
    requires
        s.a_thread_panicked,
    ensures
        spec_run(s, fails).a_thread_panicked,
    decreases fails.len(),
{
    if fails.len() > 0 {
        lemma_failure_flag_monotonic(spec_decrement(s, fails[0]), fails.drop_first());
    }
}

/// The failure flag after a run of teardowns depends only on whether any
/// child failed, not on the order in which they finished.
pub proof fn lemma_failure_flag_exact(s: ScopeData, fails: Seq<bool>)
    ensures
        spec_run(s, fails).a_thread_panicked == (s.a_thread_panicked || fails.contains(true)),
    decreases fails.len(),
{
    if fails.len() == 0 {
        assert(!fails.contains(true));
    } else {
        lemma_failure_flag_exact(spec_decrement(s, fails[0]), fails.drop_first());
        if fails.contains(true) {
            let i = choose|j: int| 0 <= j < fails.len() && fails[j] == true;
            if i > 0 {
                assert(fails.drop_first()[i - 1] == true);
                assert(fails.drop_first().contains(true));
            }
        }
        if fails[0] {
            assert(fails[0] == true);
            assert(fails.contains(true));
        }
        if fails.drop_first().contains(true) {
            let j = choose|j: int| 0 <= j < fails.drop_first().len() && fails.drop_first()[j]
                == true;
            assert(fails[j + 1] == true);
            assert(fails.contains(true));
        }
    }
}

} // verus!
