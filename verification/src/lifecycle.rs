//! The life of one spawned unit, as the spawning side observes it: the
//! state machine the host loop drives with the events it receives from the
//! substrate.

use vstd::prelude::*;

verus! {

/// The state of one spawned unit, from the spawning side.
#[derive(Clone, Copy)]
pub enum SpawnState {
    /// The context, signal and packet exist; nothing was sent yet.
    Created,
    /// The startup message was delivered to the host worker.
    Started,
    /// The host is executing the unit's entry point.
    Running,
    /// The packet is written, the signal fired, and the completion message
    /// sent.
    Completed,
    /// The spawner released its reference to the worker object; terminal.
    Reclaimed,
    /// The startup message could not be delivered and the context was freed;
    /// terminal.
    FailedToStart,
}

/// An event the host substrate reports to the spawning side about one unit.
#[derive(Clone, Copy)]
pub enum SpawnEvent {
    /// The startup message was accepted.
    StartupDelivered,
    /// The startup message was refused.
    StartupRefused,
    /// The host scheduled the worker and it began executing.
    ExecutionBegan,
    /// The worker posted the completion message.
    CompletionPosted,
    /// The spawner observed the completion message and released the worker.
    WorkerReleased,
}

/// The transition table: which event moves a unit from which state to which.
/// Only startup delivery can fail; every failure inside `Running` is carried
/// as a captured outcome in the packet, never as a state-machine failure.
/// Any other pairing of state and event is a protocol violation and has no
/// successor.
pub open spec fn spec_spawn_step(s: SpawnState, e: SpawnEvent) -> Option<SpawnState> {
    match (s, e) {
        (SpawnState::Created, SpawnEvent::StartupDelivered) => Some(SpawnState::Started),
        (SpawnState::Created, SpawnEvent::StartupRefused) => Some(SpawnState::FailedToStart),
        (SpawnState::Started, SpawnEvent::ExecutionBegan) => Some(SpawnState::Running),
        (SpawnState::Running, SpawnEvent::CompletionPosted) => Some(SpawnState::Completed),
        (SpawnState::Completed, SpawnEvent::WorkerReleased) => Some(SpawnState::Reclaimed),
        _ => None,
    }
}

/// True for the two states no event ever leaves.
pub open spec fn spec_is_terminal(s: SpawnState) -> bool {
    s is Reclaimed || s is FailedToStart
}

/// Advances one unit's state by one observed event; a pairing outside the
/// transition table yields no successor and the caller must treat the
/// protocol as violated.
pub fn spawn_step(s: SpawnState, e: SpawnEvent) -> (r: Option<SpawnState>)
    ensures
        r == spec_spawn_step(s, e),
{
    match (s, e) {
        (SpawnState::Created, SpawnEvent::StartupDelivered) => Some(SpawnState::Started),
        (SpawnState::Created, SpawnEvent::StartupRefused) => Some(SpawnState::FailedToStart),
        (SpawnState::Started, SpawnEvent::ExecutionBegan) => Some(SpawnState::Running),
        (SpawnState::Running, SpawnEvent::CompletionPosted) => Some(SpawnState::Completed),
        (SpawnState::Completed, SpawnEvent::WorkerReleased) => Some(SpawnState::Reclaimed),
        (_, _) => None,
    }
}

/// The terminal states really are terminal: no event has a successor there.
pub proof fn lemma_terminal_states_final(s: SpawnState, e: SpawnEvent)
    requires
        spec_is_terminal(s),
    ensures
        spec_spawn_step(s, e) is None,
{
}

/// A unit that failed to start never ran: no sequence of events reaches
/// `FailedToStart` except the refusal out of `Created`, so a refused startup
/// leaves nothing behind to tear down.
pub proof fn lemma_failed_start_only_from_created(s: SpawnState, e: SpawnEvent)
    requires
        spec_spawn_step(s, e) == Some(SpawnState::FailedToStart),
    ensures
        s is Created,
        e is StartupRefused,
{
}

} // verus!
