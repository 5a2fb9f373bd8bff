//! The ingest retry loop: spawn the listener, drain its data stream chunk
//! by chunk, reap it when the stream ends, back off, respawn — forever,
//! until the shutdown flag ends the loop.
//!
//! The loop's body is outside work (a spawn, a blocking read, a sleep);
//! every decision between two such operations is taken here.  The
//! embedding program performs the operation the current phase names,
//! reports what happened as a `SupervisorEvent`, and moves to the phase
//! `supervisor_step` returns.

use vstd::prelude::*;

use crate::pipeline::{CapabilitySlot, PipelineState, ProcessId};

verus! {

/// Milliseconds of fixed backoff between listener spawn attempts.
pub const BACKOFF_MILLIS: u64 = 1000;

/// Phase of the retry loop; each non-terminal phase names the one outside
/// operation the embedding program performs next.
#[derive(Clone, Copy, PartialEq, Eq, Structural, Debug)]
pub enum SupervisorPhase {
    /// Attempt to spawn the listener process.
    Spawning,
    /// A listener is alive: read one full chunk and relay it.
    Draining,
    /// The listener's stream ended: wait for the process to exit.
    Reaping,
    /// Between attempts: sleep the fixed backoff.
    BackingOff,
    /// Terminal: the loop ended because shutdown was requested or the
    /// channel's receiver is gone.
    Stopped,
    /// Terminal: the listener could not be created at all — a
    /// misconfiguration, propagated as a fatal error, never retried.
    Failed,
}

/// What the last outside operation came to.
#[derive(Clone, Copy, PartialEq, Eq, Structural, Debug)]
pub enum SupervisorEvent {
    /// The spawn succeeded; the termination capability was captured.
    SpawnOk,
    /// The process could not be created (missing binary, permissions).
    SpawnFailed,
    /// A full chunk was read and accepted by the channel.
    ChunkRelayed,
    /// A full chunk was read but the channel's receiver is gone.
    ChunkRejected,
    /// Partial read, read error, or end of the data stream.
    StreamFault,
    /// The exited process was reaped.
    Reaped,
    /// The backoff sleep elapsed.
    BackoffElapsed,
}

/// Which events can be reported from which phase.
pub open spec fn event_fits(phase: SupervisorPhase, event: SupervisorEvent) -> bool {
    match phase {
        SupervisorPhase::Spawning => event == SupervisorEvent::SpawnOk || event
            == SupervisorEvent::SpawnFailed,
        SupervisorPhase::Draining => event == SupervisorEvent::ChunkRelayed || event
            == SupervisorEvent::ChunkRejected || event == SupervisorEvent::StreamFault,
        SupervisorPhase::Reaping => event == SupervisorEvent::Reaped,
        SupervisorPhase::BackingOff => event == SupervisorEvent::BackoffElapsed,
        SupervisorPhase::Stopped => false,
        SupervisorPhase::Failed => false,
    }
}

/// The retry loop's transition relation.  The shutdown flag is consulted
/// at both places the loop pauses between listeners — after the reap and
/// after the backoff — so once the flag is true no further spawn is ever
/// decided.
pub open spec fn spec_step(
    phase: SupervisorPhase,
    event: SupervisorEvent,
    shutdown: bool,
) -> SupervisorPhase {
    match (phase, event) {
        (SupervisorPhase::Spawning, SupervisorEvent::SpawnOk) => SupervisorPhase::Draining,
        (SupervisorPhase::Spawning, SupervisorEvent::SpawnFailed) => SupervisorPhase::Failed,
        (SupervisorPhase::Draining, SupervisorEvent::ChunkRelayed) => SupervisorPhase::Draining,
        (SupervisorPhase::Draining, SupervisorEvent::ChunkRejected) => SupervisorPhase::Stopped,
        (SupervisorPhase::Draining, SupervisorEvent::StreamFault) => SupervisorPhase::Reaping,
        (SupervisorPhase::Reaping, SupervisorEvent::Reaped) => if shutdown {
            SupervisorPhase::Stopped
        } else {
            SupervisorPhase::BackingOff
        },
        (SupervisorPhase::BackingOff, SupervisorEvent::BackoffElapsed) => if shutdown {
            SupervisorPhase::Stopped
        } else {
            SupervisorPhase::Spawning
        },
        _ => phase,
    }
}

/// One decision of the retry loop, reading the shutdown flag and, on a
/// successful spawn, recording the freshly captured termination
/// capability before any reader runs.
pub fn supervisor_step(
    phase: SupervisorPhase,
    event: SupervisorEvent,
    state: &mut PipelineState,
) -> (next: SupervisorPhase)
    requires
        event_fits(phase, event),
    ensures
        next == spec_step(phase, event, old(state).shutdown),
        event == SupervisorEvent::SpawnOk ==> final(state).slot(ProcessId::Listener)
            == CapabilitySlot::Armed && final(state).shutdown == old(state).shutdown && forall|
            q: ProcessId,
        |
            q != ProcessId::Listener ==> final(state).slot(q) == old(state).slot(q),
        event != SupervisorEvent::SpawnOk ==> *final(state) == *old(state),
{
    if matches!(event, SupervisorEvent::SpawnOk) {
        state.register(ProcessId::Listener);
    }
    let shutdown = state.shutdown;
    step_decision(phase, event, shutdown)
}

/// The transition relation, executably: the decision alone, with the
/// flag's value in hand.
pub fn step_decision(phase: SupervisorPhase, event: SupervisorEvent, shutdown: bool) -> (next:
    SupervisorPhase)
    ensures
        next == spec_step(phase, event, shutdown),
{
    match (phase, event) {
        (SupervisorPhase::Spawning, SupervisorEvent::SpawnOk) => SupervisorPhase::Draining,
        (SupervisorPhase::Spawning, SupervisorEvent::SpawnFailed) => SupervisorPhase::Failed,
        (SupervisorPhase::Draining, SupervisorEvent::ChunkRelayed) => SupervisorPhase::Draining,
        (SupervisorPhase::Draining, SupervisorEvent::ChunkRejected) => SupervisorPhase::Stopped,
        (SupervisorPhase::Draining, SupervisorEvent::StreamFault) => SupervisorPhase::Reaping,
        (SupervisorPhase::Reaping, SupervisorEvent::Reaped) => if shutdown {
            SupervisorPhase::Stopped
        } else {
            SupervisorPhase::BackingOff
        },
        (SupervisorPhase::BackingOff, SupervisorEvent::BackoffElapsed) => if shutdown {
            SupervisorPhase::Stopped
        } else {
            SupervisorPhase::Spawning
        },
        _ => phase,
    }
}

/// A phase from which the loop runs no further.
pub open spec fn is_terminal(phase: SupervisorPhase) -> bool {
    phase == SupervisorPhase::Stopped || phase == SupervisorPhase::Failed
}

/// The phase after a whole observed history: each entry pairs an event
/// with the value the shutdown flag had when the decision was taken.
pub open spec fn spec_run(phase: SupervisorPhase, history: Seq<(SupervisorEvent, bool)>) -> SupervisorPhase
    decreases history.len(),
{
    if history.len() == 0 {
        phase
    } else {
        spec_run(spec_step(phase, history[0].0, history[0].1), history.skip(1))
    }
}

/// However long the history of transient faults — listeners that die at
/// once, streams that break mid-chunk, any number of respawns — while the
/// shutdown flag stays false, no spawn fails outright and the channel's
/// receiver stays alive, the retry loop never reaches a terminal phase.
pub proof fn lemma_retries_forever(
    phase: SupervisorPhase,
    history: Seq<(SupervisorEvent, bool)>,
)
    requires
        !is_terminal(phase),
        forall|k: int|
            0 <= k < history.len() ==> !history[k].1 && history[k].0
                != SupervisorEvent::SpawnFailed && history[k].0 != SupervisorEvent::ChunkRejected,
    ensures
        !is_terminal(spec_run(phase, history)),
    decreases history.len(),
{
    if history.len() > 0 {
        let next = spec_step(phase, history[0].0, history[0].1);
        assert(!is_terminal(next));
        lemma_retries_forever(next, history.skip(1));
    }
}

/// Once the shutdown flag is true, no decision of the loop ever chooses
/// another spawn, and the first decision taken at either pause between
/// listeners — right after the reap, or when the one pending backoff
/// elapses — ends the loop: the supervisor stops within one backoff
/// interval of the flag turning true.
pub proof fn lemma_stops_after_shutdown(phase: SupervisorPhase, event: SupervisorEvent)
    requires
        event_fits(phase, event),
    ensures
        spec_step(phase, event, true) != SupervisorPhase::Spawning,
        phase == SupervisorPhase::Reaping || phase == SupervisorPhase::BackingOff ==> spec_step(
            phase,
            event,
            true,
        ) == SupervisorPhase::Stopped,
{
}

/// Terminal phases are absorbing: whatever is reported afterwards, the
/// loop stays ended.
pub proof fn lemma_terminal_stays(phase: SupervisorPhase, history: Seq<(SupervisorEvent, bool)>)
    requires
        is_terminal(phase),
    ensures
        spec_run(phase, history) == phase,
    decreases history.len(),
{
    if history.len() > 0 {
        lemma_terminal_stays(spec_step(phase, history[0].0, history[0].1), history.skip(1));
    }
}

/// Replay a whole observed history; scenario tests drive the retry loop
/// through this, the embedding program drives it step by step.
pub fn run_supervisor(phase: SupervisorPhase, history: &Vec<(SupervisorEvent, bool)>) -> (r:
    SupervisorPhase)
    ensures
        r == spec_run(phase, history@),
{
    let mut cur = phase;
    let mut i: usize = 0;
    proof {
        assert(history@.skip(0) =~= history@);
    }
    while i < history.len()
        invariant
            i <= history@.len(),
            spec_run(phase, history@) == spec_run(cur, history@.skip(i as int)),
        decreases history@.len() - i,
    {
        let (event, shutdown) = history[i];
        cur = step_decision(cur, event, shutdown);
        proof {
            assert(history@.skip(i as int).skip(1) =~= history@.skip(i + 1));
        }
        i += 1;
    }
    cur
}

} // verus!
