//! The two messages of the spawn protocol: the startup message that carries
//! a unit of work to its host worker, and the completion message the worker
//! posts back when the unit is done.

use vstd::prelude::*;

verus! {

/// The startup message, spawner to host worker: the ordered sequence of the
/// bootstrap script location, the shared module and memory references, and
/// the opaque numeric handle identifying the allocated worker context, which
/// the receiving entry point redeems exactly once.
pub struct StartupMessage {
    /// Where the host-side entry-point script is fetched from.
    pub bootstrap_script_url: String,
    /// Opaque reference to the shared module image.
    pub module_ref: u64,
    /// Opaque reference to the shared linear memory.
    pub memory_ref: u64,
    /// Opaque numeric handle for the allocated worker context.
    pub context_handle: u32,
}

/// A message from a host worker back to the spawning side.
pub enum WorkerMessage {
    /// The spawned unit has run to completion. Carries no payload: the result
    /// travels through the shared packet, and the spawner uses this tag only
    /// to release its retained reference to the worker object.
    ThreadComplete,
}

/// The wire tag a worker message is posted as.
pub open spec fn spec_message_wire(m: WorkerMessage) -> u32 {
    match m {
        WorkerMessage::ThreadComplete => 1,
    }
}

/// The worker message a wire tag decodes to, if any.
pub open spec fn spec_message_decode(wire: u32) -> Option<WorkerMessage> {
    if wire == 1 {
        Some(WorkerMessage::ThreadComplete)
    } else {
        None
    }
}

impl WorkerMessage {
    /// Encodes this message to the single tagged value the worker posts to
    /// the spawning side.
    pub fn post(self) -> (wire: u32)
        ensures
            wire == spec_message_wire(self),
    {
        match self {
            WorkerMessage::ThreadComplete => 1,
        }
    }

    /// Decodes a received wire tag back to the message it carries; an
    /// unknown tag decodes to nothing.
    pub fn decode(wire: u32) -> (m: Option<WorkerMessage>)
        ensures
            m == spec_message_decode(wire),
    {
        if wire == 1 {
            Some(WorkerMessage::ThreadComplete)
        } else {
            None
        }
    }
}

/// Every message posted by a worker decodes on the spawning side to exactly
/// the message that was posted.
pub proof fn lemma_message_round_trip(m: WorkerMessage)
    ensures
        spec_message_decode(spec_message_wire(m)) == Some(m),
{
}

} // verus!
