//! Process-wide supervision state.
//!
//! One `PipelineState` value exists per program run, shared (under a lock,
//! by the embedding program) between the mixer, the source supervisor and
//! every diagnostic monitor.  It holds one termination-capability slot per
//! managed process and the single shutdown flag.  The flag only ever moves
//! from `false` to `true`, and each registered capability fires at most
//! once: every mutator below states both facts in its contract.

use vstd::prelude::*;

verus! {

/// Identity of one of the three managed external processes.
#[derive(Clone, Copy, PartialEq, Eq, Structural, Debug)]
pub enum ProcessId {
    /// The live-stream ingest listener.
    Listener,
    /// The fallback/test source decoder.
    Decoder,
    /// The playback/encoder sink.
    Sink,
}

/// Lifecycle of the termination-capability slot of one managed process.
#[derive(Clone, Copy, PartialEq, Eq, Structural, Debug)]
pub enum CapabilitySlot {
    /// No capability has been registered for the process.
    Empty,
    /// A capability is registered and no termination has been issued yet.
    Armed,
    /// The one permitted termination signal has been issued.
    Fired,
}

/// The slot after a termination attempt: an armed capability is consumed,
/// an empty or already-fired slot is left as it is.
pub open spec fn fired_slot(c: CapabilitySlot) -> CapabilitySlot {
    if c == CapabilitySlot::Armed {
        CapabilitySlot::Fired
    } else {
        c
    }
}

/// The single process-wide supervision state: a capability slot per managed
/// process plus the shutdown flag.
#[derive(Clone, Copy, PartialEq, Eq, Structural, Debug)]
pub struct PipelineState {
    pub listener: CapabilitySlot,
    pub decoder: CapabilitySlot,
    pub sink: CapabilitySlot,
    pub shutdown: bool,
}

impl PipelineState {
    /// The slot belonging to process `p`.
    pub open spec fn slot(self, p: ProcessId) -> CapabilitySlot {
        match p {
            ProcessId::Listener => self.listener,
            ProcessId::Decoder => self.decoder,
            ProcessId::Sink => self.sink,
        }
    }

    /// Empty slots, shutdown not requested: the state at program start.
    pub fn new() -> (r: PipelineState)
        ensures
            r.listener == CapabilitySlot::Empty,
            r.decoder == CapabilitySlot::Empty,
            r.sink == CapabilitySlot::Empty,
            !r.shutdown,
    {
        PipelineState {
            listener: CapabilitySlot::Empty,
            decoder: CapabilitySlot::Empty,
            sink: CapabilitySlot::Empty,
            shutdown: false,
        }
    }

    /// Record the termination capability captured right after spawning `p`.
    /// Replaces whatever the slot held: each spawn yields a fresh capability.
    pub fn register(&mut self, p: ProcessId)
        ensures
            final(self).slot(p) == CapabilitySlot::Armed,
            forall|q: ProcessId| q != p ==> final(self).slot(q) == old(self).slot(q),
            final(self).shutdown == old(self).shutdown,
    {
        match p {
            ProcessId::Listener => self.listener = CapabilitySlot::Armed,
            ProcessId::Decoder => self.decoder = CapabilitySlot::Armed,
            ProcessId::Sink => self.sink = CapabilitySlot::Armed,
        }
    }

    /// Raise the shutdown flag.  Idempotent; never lowers it, and touches
    /// no capability slot.
    pub fn request_stop(&mut self)
        ensures
            final(self).shutdown,
            forall|q: ProcessId| final(self).slot(q) == old(self).slot(q),
            old(self).shutdown ==> *final(self) == *old(self),
    {
        self.shutdown = true;
    }

    /// Decide whether a termination signal may be sent through `p`'s
    /// capability.  Returns true — and consumes the capability — exactly
    /// when one is registered and unfired; an empty or already-fired slot
    /// is a no-op, never an error.  The caller sends the actual signal only
    /// when this returns true, so each capability fires at most once.
    pub fn fire(&mut self, p: ProcessId) -> (fired: bool)
        ensures
            fired == (old(self).slot(p) == CapabilitySlot::Armed),
            final(self).slot(p) == (if old(self).slot(p) == CapabilitySlot::Armed {
                CapabilitySlot::Fired
            } else {
                old(self).slot(p)
            }),
            forall|q: ProcessId| q != p ==> final(self).slot(q) == old(self).slot(q),
            final(self).shutdown == old(self).shutdown,
    {
        let armed = match p {
            ProcessId::Listener => matches!(self.listener, CapabilitySlot::Armed),
            ProcessId::Decoder => matches!(self.decoder, CapabilitySlot::Armed),
            ProcessId::Sink => matches!(self.sink, CapabilitySlot::Armed),
        };
        if armed {
            match p {
                ProcessId::Listener => self.listener = CapabilitySlot::Fired,
                ProcessId::Decoder => self.decoder = CapabilitySlot::Fired,
                ProcessId::Sink => self.sink = CapabilitySlot::Fired,
            }
        }
        armed
    }
}

} // verus!
