use wasm_thread::builder::SpawnEnv;
use wasm_thread::context::wasm_thread_entry_point;
use wasm_thread::Builder;
use wasm_thread::JoinInner;
use wasm_thread::Outcome;
use wasm_thread::Packet;
use wasm_thread::ScopeData;
use wasm_thread::Signal;

fn env(delivery_accepted: bool) -> SpawnEnv {
    SpawnEnv {
        delivery_accepted,
        name_seed: 1,
        module_ref: 0,
        memory_ref: 0,
        context_handle: 0,
        default_shim_url: String::from("shim.js"),
        default_worker_script_url: String::from("worker.js"),
    }
}

#[test]
fn signal_starts_unset_and_fires_once() {
    let mut s = Signal::new();
    assert!(!s.is_notified());
    s.signal();
    assert!(s.is_notified());
    s.signal();
    assert!(s.is_notified());
}

#[test]
fn scenario_c_two_children_reverse_order() {
    let mut scope = ScopeData::new();
    scope.increment_num_running_threads().ok().unwrap();
    scope.increment_num_running_threads().ok().unwrap();
    assert_eq!(scope.running_count(), 2);

    let mut first: JoinInner<u64> = JoinInner {
        packet: Packet::new(true),
        signal: Signal::new(),
    };
    let mut second: JoinInner<u64> = JoinInner {
        packet: Packet::new(true),
        signal: Signal::new(),
    };
    first.packet.write(Outcome::Success(1));
    first.signal.signal();
    second.packet.write(Outcome::Success(2));
    second.signal.signal();

    // The second-spawned child finishes first; the completion signal stays
    // unfired until the other child is also torn down.
    second.discard_scoped(&mut scope);
    assert!(!scope.signal.is_notified());
    assert_eq!(scope.running_count(), 1);

    first.discard_scoped(&mut scope);
    assert!(scope.signal.is_notified());
    assert_eq!(scope.running_count(), 0);
    assert!(!scope.has_panicked());
}

#[test]
fn unread_failure_marks_scope_sticky() {
    let mut scope = ScopeData::new();
    scope.increment_num_running_threads().ok().unwrap();
    scope.increment_num_running_threads().ok().unwrap();

    let mut failed: JoinInner<u64> = JoinInner {
        packet: Packet::new(true),
        signal: Signal::new(),
    };
    failed.packet.write(Outcome::Failure(String::from("boom")));
    failed.signal.signal();
    failed.discard_scoped(&mut scope);
    assert!(scope.has_panicked());

    // A later successful child leaves the sticky flag set.
    let mut ok_child: JoinInner<u64> = JoinInner {
        packet: Packet::new(true),
        signal: Signal::new(),
    };
    ok_child.packet.write(Outcome::Success(1));
    ok_child.signal.signal();
    ok_child.discard_scoped(&mut scope);
    assert!(scope.has_panicked());
    assert!(scope.signal.is_notified());
}

#[test]
fn joined_failure_is_handled() {
    // A failure that was joined is no longer in the packet at teardown, so a
    // scoped teardown after a join does not mark the scope.
    let mut scope = ScopeData::new();
    scope.increment_num_running_threads().ok().unwrap();

    let mut child: JoinInner<u64> = JoinInner {
        packet: Packet::new(true),
        signal: Signal::new(),
    };
    child.packet.write(Outcome::Failure(String::from("boom")));
    child.signal.signal();
    match child.join() {
        Outcome::Failure(p) => assert_eq!(p, "boom"),
        Outcome::Success(_) => panic!("expected failure"),
    }
    // The join consumed the packet; the scope learns of the teardown through
    // its own bookkeeping call, with nothing unhandled to report.
    scope.decrement_num_running_threads(false);
    assert!(!scope.has_panicked());
    assert!(scope.signal.is_notified());
}

#[test]
fn increment_overflow_is_refused() {
    let mut scope = ScopeData {
        num_running_threads: usize::MAX / 2 + 1,
        a_thread_panicked: false,
        signal: Signal::new(),
    };
    assert!(scope.increment_num_running_threads().is_err());
    // The refusal left the count exactly where it was: no wraparound.
    assert_eq!(scope.running_count(), usize::MAX / 2 + 1);
}

#[test]
fn increment_at_threshold_is_accepted() {
    let mut scope = ScopeData {
        num_running_threads: usize::MAX / 2,
        a_thread_panicked: false,
        signal: Signal::new(),
    };
    assert!(scope.increment_num_running_threads().is_ok());
    assert_eq!(scope.running_count(), usize::MAX / 2 + 1);
}

#[test]
fn decrement_with_panic_sets_flag() {
    let mut scope = ScopeData::new();
    scope.increment_num_running_threads().ok().unwrap();
    scope.decrement_num_running_threads(true);
    assert!(scope.has_panicked());
    assert!(scope.signal.is_notified());
    assert_eq!(scope.running_count(), 0);
}

#[test]
fn scoped_spawn_tracks_children() {
    let mut scope = ScopeData::new();
    let f = || -> Outcome<Outcome<u64>> { Outcome::Success(Outcome::Success(1)) };
    let (_w1, mut first, ctx1) = Builder::empty()
        .spawn_in_scope(f, &mut scope, env(true))
        .ok()
        .unwrap();
    let g = || -> Outcome<Outcome<u64>> { Outcome::Success(Outcome::Success(2)) };
    let (_w2, mut second, ctx2) = Builder::empty()
        .spawn_in_scope(g, &mut scope, env(true))
        .ok()
        .unwrap();
    assert_eq!(scope.running_count(), 2);

    wasm_thread_entry_point(ctx1, &mut first);
    wasm_thread_entry_point(ctx2, &mut second);

    second.discard_scoped(&mut scope);
    assert!(!scope.signal.is_notified());
    first.discard_scoped(&mut scope);
    assert!(scope.signal.is_notified());
    assert!(!scope.has_panicked());
}

#[test]
fn scoped_spawn_rejected_delivery_leaves_scope() {
    let mut scope = ScopeData::new();
    let f = || -> Outcome<Outcome<u64>> { Outcome::Success(Outcome::Success(1)) };
    assert!(Builder::empty()
        .spawn_in_scope(f, &mut scope, env(false))
        .is_err());
    assert_eq!(scope.running_count(), 0);
    assert!(!scope.signal.is_notified());
}

#[test]
fn packet_dispose_reports_unread_failure() {
    let mut p: Packet<u64> = Packet::new(false);
    p.write(Outcome::Failure(String::from("oops")));
    assert!(p.dispose());

    let mut p: Packet<u64> = Packet::new(false);
    p.write(Outcome::Success(3));
    assert!(!p.dispose());

    let p: Packet<u64> = Packet::new(false);
    assert!(!p.dispose());
}
