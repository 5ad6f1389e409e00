//! The thread factory: plain configuration data, the process-wide default
//! store, and the spawn orchestration that negotiates startup with a host
//! worker.

use vstd::prelude::*;
use vstd::string::StringExecFns;
use crate::context::WebWorkerContext;
use crate::handle::JoinHandle;
use crate::handle::JoinInner;
use crate::messages::StartupMessage;
use crate::name::spec_opt_str;
use crate::name::spec_worker_name;
use crate::name::worker_name;
use crate::outcome::Outcome;
use crate::scope::ScopeData;

verus! {

/// The spawn attempt failed: the host substrate refused or failed to accept
/// the startup message. The allocated context is freed before this is
/// reported, so no worker or packet state is left dangling.
pub enum SpawnError {
    /// The startup message could not be delivered.
    StartupDelivery,
}

/// The facts the host substrate contributes to one spawn, gathered before
/// the spawn is orchestrated: its verdict on the startup delivery, the
/// randomness behind a generated name suffix, the shared module and memory
/// references, the handle it allocated for the context, and its default
/// script locations. Every spawn function is verified for every possible
/// value of these, so nothing is assumed of the substrate beyond what the
/// caller observed.
pub struct SpawnEnv {
    /// Whether the host accepted the startup message.
    pub delivery_accepted: bool,
    /// Host-drawn randomness for a generated name suffix.
    pub name_seed: u64,
    /// Opaque reference to the shared module image.
    pub module_ref: u64,
    /// Opaque reference to the shared linear memory.
    pub memory_ref: u64,
    /// The opaque numeric handle the host allocated for the context.
    pub context_handle: u32,
    /// The host's default location of the bootstrap entry-point script.
    pub default_shim_url: String,
    /// The host's default location of the worker script.
    pub default_worker_script_url: String,
}

/// The spawning side's record of one acquired host worker: the
/// identification it was created under, the script it runs, and the startup
/// message it was handed.
pub struct Worker {
    /// The identification the worker was created under, if any.
    pub name: Option<String>,
    /// The worker script the host fetched for this worker.
    pub script_url: String,
    /// The startup message delivered to the worker.
    pub startup: StartupMessage,
}

/// Thread factory: plain configuration for a thread-to-be.
pub struct Builder {
    /// A name for the thread-to-be, for identification.
    pub name: Option<String>,
    /// A prefix for the thread-to-be, combined with a name or a generated
    /// suffix.
    pub prefix: Option<String>,
    /// Override for the worker script the host fetches.
    pub worker_script_url: Option<String>,
    /// Advisory stack size in bytes; the substrate does not support custom
    /// stacks, so this is accepted for API parity only.
    pub stack_size: Option<usize>,
    /// Override for the bootstrap entry-point script location.
    pub wasm_bindgen_shim_url: Option<String>,
}

/// The process-wide default configuration: installed once by
/// [`Builder::set_default`] and copied into every builder constructed by
/// [`Builder::new`]. The store is plain data; the process-wide cell holding
/// it, and the lock guarding that cell, belong to the host side.
pub struct BuilderDefaults {
    /// The installed defaults, if any were set.
    pub current: Option<Builder>,
}

/// A builder's configuration by content: each option's character content,
/// and the advisory stack size.
pub open spec fn spec_builder_view(b: Builder) -> (
    Option<Seq<char>>,
    Option<Seq<char>>,
    Option<Seq<char>>,
    Option<usize>,
    Option<Seq<char>>,
) {
    (
        spec_opt_str(b.name),
        spec_opt_str(b.prefix),
        spec_opt_str(b.worker_script_url),
        b.stack_size,
        spec_opt_str(b.wasm_bindgen_shim_url),
    )
}

/// What a successful spawn hands the host for one builder and one set of
/// host facts: the worker's identification combines the builder's name and
/// prefix with the generated suffix; the worker runs the builder's script
/// override or the host default; and the startup message carries the
/// bootstrap location (override or default), the shared module and memory
/// references, and the allocated context handle.
pub open spec fn spec_spawned_worker(b: Builder, env: SpawnEnv, w: Worker) -> bool {
    &&& spec_opt_str(w.name) == spec_worker_name(
        spec_opt_str(b.name),
        spec_opt_str(b.prefix),
        env.name_seed,
    )
    &&& w.script_url@ == (match b.worker_script_url {
        Some(u) => u@,
        None => env.default_worker_script_url@,
    })
    &&& w.startup.bootstrap_script_url@ == (match b.wasm_bindgen_shim_url {
        Some(u) => u@,
        None => env.default_shim_url@,
    })
    &&& w.startup.module_ref == env.module_ref
    &&& w.startup.memory_ref == env.memory_ref
    &&& w.startup.context_handle == env.context_handle
}

/// A spawned worker is fixed by the builder's content alone: two builders
/// configured alike — whatever the identity of the strings holding that
/// configuration — describe the same workers.
pub proof fn lemma_spawned_worker_by_view(b1: Builder, b2: Builder, env: SpawnEnv, w: Worker)
    requires
        spec_builder_view(b1) == spec_builder_view(b2),
        spec_spawned_worker(b1, env, w),
    ensures
        spec_spawned_worker(b2, env, w),
{
}

/// Copies an optional string by content.
fn clone_opt_string(o: &Option<String>) -> (r: Option<String>)
    ensures
        spec_opt_str(r) == spec_opt_str(*o),
{
    match o {
        Some(s) => Some(String::from_str(s.as_str())),
        None => None,
    }
}

impl Builder {
    /// Creates a builder inheriting the installed defaults, if any; without
    /// installed defaults it starts empty, as [`Builder::empty`] does.
    pub fn new(defaults: &BuilderDefaults) -> (b: Builder)
        ensures
            match defaults.current {
                Some(d) => spec_builder_view(b) == spec_builder_view(d),
                None => b == Builder::spec_empty(),
            },
    {
        match &defaults.current {
            Some(d) => Builder {
                name: clone_opt_string(&d.name),
                prefix: clone_opt_string(&d.prefix),
                worker_script_url: clone_opt_string(&d.worker_script_url),
                stack_size: d.stack_size,
                wasm_bindgen_shim_url: clone_opt_string(&d.wasm_bindgen_shim_url),
            },
            None => Builder::empty(),
        }
    }

    /// The builder with every option unset.
    pub open spec fn spec_empty() -> Builder {
        Builder {
            name: None,
            prefix: None,
            worker_script_url: None,
            stack_size: None,
            wasm_bindgen_shim_url: None,
        }
    }

    /// Creates a builder without inheriting the installed defaults.
    pub fn empty() -> (b: Builder)
        ensures
            b == Builder::spec_empty(),
    {
        Builder {
            name: None,
            prefix: None,
            worker_script_url: None,
            stack_size: None,
            wasm_bindgen_shim_url: None,
        }
    }

    /// Installs this builder's current values as the process-wide default
    /// for all builders later created with [`Builder::new`].
    pub fn set_default(self, defaults: &mut BuilderDefaults)
        ensures
            final(defaults).current == Some(self),
    {
        defaults.current = Some(self);
    }

    /// Sets the prefix of the thread.
    pub fn prefix(self, prefix: String) -> (b: Builder)
        ensures
            b == (Builder { prefix: Some(prefix), ..self }),
    {
        Builder { prefix: Some(prefix), ..self }
    }

    /// Sets the URL the host fetches the worker script from.
    pub fn worker_script_url(self, worker_script_url: String) -> (b: Builder)
        ensures
            b == (Builder { worker_script_url: Some(worker_script_url), ..self }),
    {
        Builder { worker_script_url: Some(worker_script_url), ..self }
    }

    /// Sets the name of the thread. If not set, a name is generated from the
    /// prefix, or the worker stays unnamed.
    pub fn name(self, name: String) -> (b: Builder)
        ensures
            b == (Builder { name: Some(name), ..self }),
    {
        Builder { name: Some(name), ..self }
    }

    /// Sets the advisory stack size in bytes. The substrate does not support
    /// custom stacks; the value is kept for API parity only.
    pub fn stack_size(self, size: usize) -> (b: Builder)
        ensures
            b == (Builder { stack_size: Some(size), ..self }),
    {
        Builder { stack_size: Some(size), ..self }
    }

    /// Sets the location of the bootstrap entry-point script.
    pub fn wasm_bindgen_shim_url(self, url: String) -> (b: Builder)
        ensures
            b == (Builder { wasm_bindgen_shim_url: Some(url), ..self }),
    {
        Builder { wasm_bindgen_shim_url: Some(url), ..self }
    }

    /// Spawns a new thread from this builder: acquires a host worker, hands
    /// it the startup message, and returns the worker record, the join
    /// handle, and the context the host transports to the worker. If the
    /// host refused the startup message, the attempt fails with a delivery
    /// error, the context is freed, and no packet or signal remains.
    pub fn spawn<T, F: FnOnce() -> Outcome<Outcome<T>>>(self, f: F, env: SpawnEnv) -> (r: Result<
        (Worker, JoinHandle<T>, WebWorkerContext<F>),
        SpawnError,
    >)
        ensures
            r is Ok <==> env.delivery_accepted,
            r matches Err(e) ==> e is StartupDelivery,
            r matches Ok(t) ==> {
                &&& spec_spawned_worker(self, env, t.0)
                &&& !t.1.0.signal.notified
                &&& t.1.0.packet.result is None
                &&& !t.1.0.packet.scoped
                &&& t.2.work == f
            },
    {
        match self.spawn_unchecked(f, env) {
            Ok(t) => Ok(t),
            Err(e) => Err(e),
        }
    }

    /// As [`Builder::spawn`]. This entry point exists for work that borrows
    /// from the caller's frame, obliging the caller to join before that
    /// frame ends; the context's single-use ownership carries that
    /// obligation, so the two entry points coincide in their contracts.
    pub fn spawn_unchecked<T, F: FnOnce() -> Outcome<Outcome<T>>>(self, f: F, env: SpawnEnv) -> (r:
        Result<(Worker, JoinHandle<T>, WebWorkerContext<F>), SpawnError>)
        ensures
            r is Ok <==> env.delivery_accepted,
            r matches Err(e) ==> e is StartupDelivery,
            r matches Ok(t) ==> {
                &&& spec_spawned_worker(self, env, t.0)
                &&& !t.1.0.signal.notified
                &&& t.1.0.packet.result is None
                &&& !t.1.0.packet.scoped
                &&& t.2.work == f
            },
    {
        match self.spawn_unchecked_(f, env) {
            Ok((worker, inner, ctx)) => Ok((worker, JoinHandle(inner), ctx)),
            Err(e) => Err(e),
        }
    }

    /// The unscoped spawn path: builds the context, signal and packet
    /// triple, negotiates startup with the host, and assembles the internal
    /// join state.
    pub fn spawn_unchecked_<T, F: FnOnce() -> Outcome<Outcome<T>>>(self, f: F, env: SpawnEnv) -> (r:
        Result<(Worker, JoinInner<T>, WebWorkerContext<F>), SpawnError>)
        ensures
            r is Ok <==> env.delivery_accepted,
            r matches Err(e) ==> e is StartupDelivery,
            r matches Ok(t) ==> {
                &&& spec_spawned_worker(self, env, t.0)
                &&& !t.1.signal.notified
                &&& t.1.packet.result is None
                &&& !t.1.packet.scoped
                &&& t.2.work == f
            },
    {
        let (context, my_signal, my_packet) = WebWorkerContext::new(f, false);
        match self.spawn_for_context(context, env) {
            Ok((worker, context)) => Ok(
                (worker, JoinInner { packet: my_packet, signal: my_signal }, context),
            ),
            Err(e) => Err(e),
        }
    }

    /// The scoped spawn path: as [`Builder::spawn_unchecked_`], but the
    /// unit's packet belongs to the given scope, whose running-count is
    /// raised once startup has been negotiated. Driving the count within
    /// overflow range of wraparound is fatal misuse — the caller must not
    /// hold that many outstanding children — so such a state is excluded
    /// here rather than recovered from. A refused delivery leaves the scope
    /// untouched: the unit never started.
    pub fn spawn_in_scope<T, F: FnOnce() -> Outcome<Outcome<T>>>(
        self,
        f: F,
        scope: &mut ScopeData,
        env: SpawnEnv,
    ) -> (r: Result<(Worker, JoinInner<T>, WebWorkerContext<F>), SpawnError>)
        requires
            old(scope).num_running_threads <= usize::MAX / 2,
        ensures
            r is Ok <==> env.delivery_accepted,
            r matches Err(e) ==> e is StartupDelivery,
            r is Err ==> *final(scope) == *old(scope),
            r matches Ok(t) ==> {
                &&& spec_spawned_worker(self, env, t.0)
                &&& !t.1.signal.notified
                &&& t.1.packet.result is None
                &&& t.1.packet.scoped
                &&& t.2.work == f
                &&& *final(scope) == (ScopeData {
                    num_running_threads: (old(scope).num_running_threads + 1) as usize,
                    ..*old(scope)
                })
            },
    {
        let (context, my_signal, my_packet) = WebWorkerContext::new(f, true);
        match self.spawn_for_context(context, env) {
            Ok((worker, context)) => {
                match scope.increment_num_running_threads() {
                    Ok(()) => Ok(
                        (worker, JoinInner { packet: my_packet, signal: my_signal }, context),
                    ),
                    Err(_) => unreached(),
                }
            },
            Err(e) => Err(e),
        }
    }

    /// Negotiates one startup with the host: fixes the worker's
    /// identification, acquires the worker, and delivers the startup message
    /// carrying the bootstrap location, the shared module and memory
    /// references, and the context's handle. On a refused delivery the
    /// context is dropped here — freed immediately — and the delivery error
    /// is reported.
    pub fn spawn_for_context<F>(self, ctx: WebWorkerContext<F>, env: SpawnEnv) -> (r: Result<
        (Worker, WebWorkerContext<F>),
        SpawnError,
    >)
        ensures
            r is Ok <==> env.delivery_accepted,
            r matches Ok(t) ==> spec_spawned_worker(self, env, t.0) && t.1.work == ctx.work,
            r matches Err(e) ==> e is StartupDelivery,
    {
        let Builder { name, prefix, worker_script_url, stack_size: _, wasm_bindgen_shim_url } =
            self;

        let bootstrap_script_url = match wasm_bindgen_shim_url {
            Some(u) => u,
            None => env.default_shim_url,
        };
        let script_url = match worker_script_url {
            Some(u) => u,
            None => env.default_worker_script_url,
        };
        let name = worker_name(name, prefix, env.name_seed);

        let startup = StartupMessage {
            bootstrap_script_url,
            module_ref: env.module_ref,
            memory_ref: env.memory_ref,
            context_handle: env.context_handle,
        };

        if env.delivery_accepted {
            Ok((Worker { name, script_url, startup }, ctx))
        } else {
            Err(SpawnError::StartupDelivery)
        }
    }
}

/// Spawns a new thread with the default configuration, returning the worker
/// record, the join handle, and the context the host transports to the
/// worker. The caller must have observed the host accept the startup
/// message: a refused delivery has no handle to return.
pub fn spawn<T, F: FnOnce() -> Outcome<Outcome<T>>>(
    f: F,
    defaults: &BuilderDefaults,
    env: SpawnEnv,
) -> (r: (Worker, JoinHandle<T>, WebWorkerContext<F>))
    requires
        env.delivery_accepted,
    ensures
        (match defaults.current {
            Some(d) => spec_spawned_worker(d, env, r.0),
            None => spec_spawned_worker(Builder::spec_empty(), env, r.0),
        }),
        !r.1.0.signal.notified,
        r.1.0.packet.result is None,
        !r.1.0.packet.scoped,
        r.2.work == f,
{
    let builder = Builder::new(defaults);
    let ghost prepared = builder;
    match builder.spawn(f, env) {
        Ok(t) => {
            proof {
                if defaults.current is Some {
                    lemma_spawned_worker_by_view(prepared, defaults.current->Some_0, env, t.0);
                }
            }
            t
        },
        Err(e) => match e {
            SpawnError::StartupDelivery => unreached(),
        },
    }
}

} // verus!
