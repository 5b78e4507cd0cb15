//! Shutdown kinds and the lifecycle events delivered to extensions.

use vstd::prelude::*;

verus! {

/// The kind of generation shutdown a thread has requested. `Unset` means no
/// request was recorded; a generation that settles in that state is a
/// defensive fatal case that correct programs never reach.
#[derive(Clone, Copy, PartialEq, Eq, Structural, Debug)]
pub enum ShutdownType {
    Unset,
    Gracefully,
    Restarting,
    Error,
}

/// An opaque payload capability carried by a cross-extension event.
#[derive(Clone, Copy, PartialEq, Eq, Structural, Debug)]
pub struct EventArgs(pub usize);

/// A lifecycle or cross-extension event. The run loop delivers `VMRun` when
/// a run starts, `VMShutdown` when a generation ends (with its shutdown
/// kind) and `VMEnd` when the run is over; extensions may address `Foreign`
/// events to one another.
#[derive(Clone, Copy, PartialEq, Eq, Structural, Debug)]
pub enum EventType {
    VMRun,
    VMEnd,
    VMShutdown(ShutdownType),
    Foreign { from: u32, event: u32, payload: EventArgs },
}

/// What the run loop does once a generation has settled.
#[derive(Debug)]
pub enum RunOutcome {
    /// Reinitialize shared memory and start a new generation.
    Restart,
    /// The run is over; the program ended it on purpose.
    Graceful,
    /// The run is over with a captured error message, if one was recorded.
    Failed(Option<String>),
    /// The run is over without any recorded shutdown request; a defensive
    /// fatal case.
    Unknown,
}

/// Decide the fate of a settled generation from the recorded shutdown kind
/// and the captured error message.
pub fn run_outcome(kind: ShutdownType, error_data: Option<String>) -> (r: RunOutcome)
    ensures
        kind is Restarting <==> r is Restart,
        kind is Gracefully <==> r is Graceful,
        kind is Error <==> r is Failed,
        kind is Unset <==> r is Unknown,
        kind is Error ==> r == RunOutcome::Failed(error_data),
{
    match kind {
        ShutdownType::Restarting => RunOutcome::Restart,
        ShutdownType::Gracefully => RunOutcome::Graceful,
        ShutdownType::Error => RunOutcome::Failed(error_data),
        ShutdownType::Unset => RunOutcome::Unknown,
    }
}

} // verus!
