use wasm_thread::builder::SpawnEnv;
use wasm_thread::context::wasm_thread_entry_point;
use wasm_thread::Builder;
use wasm_thread::BuilderDefaults;
use wasm_thread::JoinHandle;
use wasm_thread::Outcome;
use wasm_thread::SpawnError;
use wasm_thread::WorkerMessage;

fn env(delivery_accepted: bool, name_seed: u64) -> SpawnEnv {
    SpawnEnv {
        delivery_accepted,
        name_seed,
        module_ref: 11,
        memory_ref: 22,
        context_handle: 33,
        default_shim_url: String::from("shim.js"),
        default_worker_script_url: String::from("worker.js"),
    }
}

#[test]
fn scenario_a_success_value() {
    let builder = Builder::empty();
    let f = || -> Outcome<Outcome<u64>> { Outcome::Success(Outcome::Success(2 + 2)) };
    let (_worker, handle, ctx) = builder.spawn(f, env(true, 0)).ok().unwrap();
    let mut inner = handle.0;
    let msg = wasm_thread_entry_point(ctx, &mut inner);
    assert!(matches!(msg, WorkerMessage::ThreadComplete));
    match inner.join() {
        Outcome::Success(v) => assert_eq!(v, 4),
        Outcome::Failure(_) => panic!("expected success"),
    }
}

#[test]
fn scenario_b_failure_payload() {
    let builder = Builder::empty();
    let f = || -> Outcome<Outcome<u64>> {
        Outcome::Success(Outcome::Failure(String::from("boom")))
    };
    let (_worker, handle, ctx) = builder.spawn(f, env(true, 0)).ok().unwrap();
    let mut inner = handle.0;
    wasm_thread_entry_point(ctx, &mut inner);
    match inner.join() {
        Outcome::Failure(p) => assert_eq!(p, "boom"),
        Outcome::Success(_) => panic!("expected failure"),
    }
}

#[test]
fn setup_phase_failure_same_payload() {
    let builder = Builder::empty();
    let f = || -> Outcome<Outcome<u64>> { Outcome::Failure(String::from("boom")) };
    let (_worker, handle, ctx) = builder.spawn(f, env(true, 0)).ok().unwrap();
    let mut inner = handle.0;
    wasm_thread_entry_point(ctx, &mut inner);
    match inner.join() {
        Outcome::Failure(p) => assert_eq!(p, "boom"),
        Outcome::Success(_) => panic!("expected failure"),
    }
}

#[test]
fn join_async_returns_value() {
    let builder = Builder::empty();
    let f = || -> Outcome<Outcome<&'static str>> {
        Outcome::Success(Outcome::Success("done"))
    };
    let (_worker, handle, ctx) = builder.spawn(f, env(true, 0)).ok().unwrap();
    let mut inner = handle.0;
    wasm_thread_entry_point(ctx, &mut inner);
    match inner.join_async() {
        Outcome::Success(v) => assert_eq!(v, "done"),
        Outcome::Failure(_) => panic!("expected success"),
    }
}

#[test]
fn join_handle_join() {
    let builder = Builder::empty();
    let f = || -> Outcome<Outcome<u64>> { Outcome::Success(Outcome::Success(7)) };
    let (_worker, handle, ctx) = builder.spawn(f, env(true, 0)).ok().unwrap();
    let mut inner = handle.0;
    wasm_thread_entry_point(ctx, &mut inner);
    let handle = JoinHandle(inner);
    match handle.join() {
        Outcome::Success(v) => assert_eq!(v, 7),
        Outcome::Failure(_) => panic!("expected success"),
    }
}

#[test]
fn scenario_d_rejected_delivery() {
    let builder = Builder::empty();
    let f = || -> Outcome<Outcome<u64>> { Outcome::Success(Outcome::Success(1)) };
    match builder.spawn(f, env(false, 0)) {
        Err(SpawnError::StartupDelivery) => (),
        Ok(_) => panic!("expected a delivery failure"),
    }
}

#[test]
fn scenario_e_default_prefix_identification() {
    let mut defaults = BuilderDefaults { current: None };
    Builder::empty()
        .prefix(String::from("worker"))
        .set_default(&mut defaults);
    let builder = Builder::new(&defaults);
    let f = || -> Outcome<Outcome<u64>> { Outcome::Success(Outcome::Success(0)) };
    let (worker, _handle, _ctx) = builder.spawn(f, env(true, 90210)).ok().unwrap();
    assert_eq!(worker.name.unwrap(), format!("worker:{}", 90210));
}

#[test]
fn explicit_name_and_prefix_combined() {
    let builder = Builder::empty()
        .prefix(String::from("pool"))
        .name(String::from("alpha"));
    let f = || -> Outcome<Outcome<u64>> { Outcome::Success(Outcome::Success(0)) };
    let (worker, _handle, _ctx) = builder.spawn(f, env(true, 5)).ok().unwrap();
    assert_eq!(worker.name.unwrap(), "pool:alpha");
}

#[test]
fn explicit_name_alone() {
    let builder = Builder::empty().name(String::from("solo"));
    let f = || -> Outcome<Outcome<u64>> { Outcome::Success(Outcome::Success(0)) };
    let (worker, _handle, _ctx) = builder.spawn(f, env(true, 5)).ok().unwrap();
    assert_eq!(worker.name.unwrap(), "solo");
}

#[test]
fn unnamed_worker() {
    let builder = Builder::empty();
    let f = || -> Outcome<Outcome<u64>> { Outcome::Success(Outcome::Success(0)) };
    let (worker, _handle, _ctx) = builder.spawn(f, env(true, 5)).ok().unwrap();
    assert!(worker.name.is_none());
}

#[test]
fn startup_message_contents() {
    let builder = Builder::empty();
    let f = || -> Outcome<Outcome<u64>> { Outcome::Success(Outcome::Success(0)) };
    let (worker, _handle, _ctx) = builder.spawn(f, env(true, 5)).ok().unwrap();
    assert_eq!(worker.startup.module_ref, 11);
    assert_eq!(worker.startup.memory_ref, 22);
    assert_eq!(worker.startup.context_handle, 33);
    assert_eq!(worker.startup.bootstrap_script_url, "shim.js");
    assert_eq!(worker.script_url, "worker.js");
}

#[test]
fn script_overrides_used() {
    let builder = Builder::empty()
        .worker_script_url(String::from("my_worker.js"))
        .wasm_bindgen_shim_url(String::from("my_shim.js"));
    let f = || -> Outcome<Outcome<u64>> { Outcome::Success(Outcome::Success(0)) };
    let (worker, _handle, _ctx) = builder.spawn(f, env(true, 5)).ok().unwrap();
    assert_eq!(worker.startup.bootstrap_script_url, "my_shim.js");
    assert_eq!(worker.script_url, "my_worker.js");
}

#[test]
fn builder_setters_and_empty() {
    let b = Builder::empty();
    assert!(b.name.is_none());
    assert!(b.prefix.is_none());
    assert!(b.worker_script_url.is_none());
    assert!(b.stack_size.is_none());
    assert!(b.wasm_bindgen_shim_url.is_none());
    let b = b.stack_size(4096);
    assert_eq!(b.stack_size, Some(4096));
}

#[test]
fn new_without_defaults_is_empty() {
    let defaults = BuilderDefaults { current: None };
    let b = Builder::new(&defaults);
    assert!(b.name.is_none());
    assert!(b.prefix.is_none());
    assert!(b.worker_script_url.is_none());
    assert!(b.stack_size.is_none());
    assert!(b.wasm_bindgen_shim_url.is_none());
}

#[test]
fn free_spawn_uses_defaults() {
    let mut defaults = BuilderDefaults { current: None };
    Builder::empty()
        .prefix(String::from("bg"))
        .set_default(&mut defaults);
    let f = || -> Outcome<Outcome<u64>> { Outcome::Success(Outcome::Success(9)) };
    let (worker, handle, ctx) = wasm_thread::spawn(f, &defaults, env(true, 3));
    assert_eq!(worker.name.unwrap(), "bg:3");
    let mut inner = handle.0;
    wasm_thread_entry_point(ctx, &mut inner);
    match inner.join() {
        Outcome::Success(v) => assert_eq!(v, 9),
        Outcome::Failure(_) => panic!("expected success"),
    }
}
