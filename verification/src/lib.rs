//! A thread-like spawn/join API for hosts that offer only isolated execution
//! contexts ("workers") communicating through one-way asynchronous messages.
//!
//! The library holds the verified core: the one-shot completion [`Signal`],
//! the per-thread result [`Packet`], the scope lifetime tracker
//! [`ScopeData`], the transferable unit of work [`WebWorkerContext`],
//! and the [`Builder`] orchestration that negotiates startup and completion
//! with the host worker. The host substrate itself (worker creation, message
//! delivery, scheduling) is outside the library: every fact it decides during
//! a spawn is handed in as a plain value, and every verified function states
//! what holds for each possible value.

pub mod builder;
pub mod context;
pub mod handle;
pub mod lifecycle;
pub mod messages;
pub mod name;
pub mod outcome;
pub mod packet;
pub mod scope;
pub mod signal;

pub use builder::Builder;
pub use builder::BuilderDefaults;
pub use builder::SpawnEnv;
pub use builder::SpawnError;
pub use builder::Worker;
pub use builder::spawn;
pub use context::WebWorkerContext;
pub use context::wasm_thread_entry_point;
pub use handle::JoinHandle;
pub use lifecycle::SpawnEvent;
pub use lifecycle::SpawnState;
pub use handle::JoinInner;
pub use messages::StartupMessage;
pub use messages::WorkerMessage;
pub use outcome::Outcome;
pub use packet::Packet;
pub use scope::ScopeData;
pub use signal::Signal;
