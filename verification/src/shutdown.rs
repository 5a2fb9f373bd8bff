//! The single path by which managed processes are ever signalled to stop.
//!
//! Both the mixer's natural end-of-stream and a monitor's fatal-pattern
//! detection route through `request_shutdown`.  It raises the shutdown
//! flag, then plans one termination step per managed process in a fixed
//! order — decoder, sink, listener — consuming each armed capability, so
//! that across any number of (lock-serialized) invocations every process
//! receives at most one signal.

use vstd::prelude::*;

use crate::pipeline::{fired_slot, CapabilitySlot, PipelineState, ProcessId};

verus! {

/// Milliseconds of grace delay before the termination sequence, letting
/// in-flight writes to the sink drain.
pub const GRACE_MILLIS: u64 = 1000;

/// One step of the termination sequence: its target, and whether a signal
/// is to be sent (`false` when the slot was empty or already fired — a
/// tolerated no-op, not an error).
#[derive(Clone, Copy, PartialEq, Eq, Structural, Debug)]
pub struct ShutdownStep {
    pub target: ProcessId,
    pub signal: bool,
}

/// The fixed termination order: fallback decoder first, then the sink,
/// then the listener.
pub open spec fn termination_order() -> Seq<ProcessId> {
    seq![ProcessId::Decoder, ProcessId::Sink, ProcessId::Listener]
}

/// The state one run of the termination sequence leaves behind: flag
/// raised, every armed capability consumed.
pub open spec fn after_shutdown(s: PipelineState) -> PipelineState {
    PipelineState {
        listener: fired_slot(s.listener),
        decoder: fired_slot(s.decoder),
        sink: fired_slot(s.sink),
        shutdown: true,
    }
}

/// Raise the shutdown flag and plan the ordered termination sequence.
/// The caller waits out the grace delay, then carries the steps out in
/// order, sending a signal exactly for the steps marked `signal`.
pub fn request_shutdown(state: &mut PipelineState) -> (steps: Vec<ShutdownStep>)
    ensures
        *final(state) == after_shutdown(*old(state)),
        steps@.len() == termination_order().len(),
        forall|k: int|
            0 <= k < steps@.len() ==> steps@[k] == (ShutdownStep {
                target: termination_order()[k],
                signal: old(state).slot(termination_order()[k]) == CapabilitySlot::Armed,
            }),
{
    state.request_stop();
    let mut steps: Vec<ShutdownStep> = Vec::new();
    let dec = state.fire(ProcessId::Decoder);
    steps.push(ShutdownStep { target: ProcessId::Decoder, signal: dec });
    let snk = state.fire(ProcessId::Sink);
    steps.push(ShutdownStep { target: ProcessId::Sink, signal: snk });
    let lst = state.fire(ProcessId::Listener);
    steps.push(ShutdownStep { target: ProcessId::Listener, signal: lst });
    steps
}

/// The termination sequence is idempotent: a second run starts from a
/// state in which no capability is armed any more, so it changes nothing
/// and plans no signal — under the serializing lock, two concurrent
/// invocations deliver at most one signal per process.
pub proof fn lemma_shutdown_idempotent(s: PipelineState)
    ensures
        after_shutdown(after_shutdown(s)) == after_shutdown(s),
        forall|p: ProcessId| after_shutdown(s).slot(p) != CapabilitySlot::Armed,
{
    assert forall|p: ProcessId| after_shutdown(s).slot(p) != CapabilitySlot::Armed by {
        match p {
            ProcessId::Listener => {},
            ProcessId::Decoder => {},
            ProcessId::Sink => {},
        }
    }
}

} // verus!
