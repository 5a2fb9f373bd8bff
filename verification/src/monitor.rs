//! Diagnostic-line classification and fatal-condition detection.
//!
//! Every managed process's diagnostic stream is drained line by line.  For
//! each line the monitor decides, severity first: informational and
//! warning lines carry an embedded tag, anything unclassified counts as an
//! error.  Forwarded lines have their tag stripped; unclassified lines
//! from the quiet listener process, or lines showing a known benign
//! transient message, are suppressed.  Independently, a line containing
//! the fatal broken-pipe signature forces the pipeline-wide shutdown flag
//! and consumes the listener's termination capability — at most once.

use vstd::prelude::*;
use vstd::slice::slice_to_vec;

use crate::pipeline::{fired_slot, CapabilitySlot, PipelineState, ProcessId};
use crate::text::{contains_pattern, contains_seq, strip_pattern, strip_seq};

verus! {

/// Severity of one diagnostic line.
#[derive(Clone, Copy, PartialEq, Eq, Structural, Debug)]
pub enum Severity {
    Info,
    Warning,
    /// Unclassified: no recognized tag, treated as an error.
    Error,
}

/// Bytes of the informational tag `[info]`.
pub open spec fn info_tag() -> Seq<u8> {
    seq![
        '[' as u8,
        'i' as u8,
        'n' as u8,
        'f' as u8,
        'o' as u8,
        ']' as u8,
    ]
}

/// Bytes of the warning tag `[warning]`.
pub open spec fn warning_tag() -> Seq<u8> {
    seq![
        '[' as u8,
        'w' as u8,
        'a' as u8,
        'r' as u8,
        'n' as u8,
        'i' as u8,
        'n' as u8,
        'g' as u8,
        ']' as u8,
    ]
}

/// Bytes of the error-level tag `[level+error]` that the managed
/// processes put on otherwise unclassified lines.
pub open spec fn error_tag() -> Seq<u8> {
    seq![
        '[' as u8,
        'l' as u8,
        'e' as u8,
        'v' as u8,
        'e' as u8,
        'l' as u8,
        '+' as u8,
        'e' as u8,
        'r' as u8,
        'r' as u8,
        'o' as u8,
        'r' as u8,
        ']' as u8,
    ]
}

/// Bytes of the benign transient message `Input/output error`; an
/// unclassified line showing it is suppressed rather than forwarded.
pub open spec fn benign_signature() -> Seq<u8> {
    seq![
        'I' as u8,
        'n' as u8,
        'p' as u8,
        'u' as u8,
        't' as u8,
        '/' as u8,
        'o' as u8,
        'u' as u8,
        't' as u8,
        'p' as u8,
        'u' as u8,
        't' as u8,
        ' ' as u8,
        'e' as u8,
        'r' as u8,
        'r' as u8,
        'o' as u8,
        'r' as u8,
    ]
}

/// Bytes of the fatal signature `Error closing file pipe:: Broken pipe`:
/// the downstream consumer pipe closed unexpectedly, which must bring the
/// whole pipeline down.
pub open spec fn fatal_signature() -> Seq<u8> {
    seq![
        'E' as u8,
        'r' as u8,
        'r' as u8,
        'o' as u8,
        'r' as u8,
        ' ' as u8,
        'c' as u8,
        'l' as u8,
        'o' as u8,
        's' as u8,
        'i' as u8,
        'n' as u8,
        'g' as u8,
        ' ' as u8,
        'f' as u8,
        'i' as u8,
        'l' as u8,
        'e' as u8,
        ' ' as u8,
        'p' as u8,
        'i' as u8,
        'p' as u8,
        'e' as u8,
        ':' as u8,
        ':' as u8,
        ' ' as u8,
        'B' as u8,
        'r' as u8,
        'o' as u8,
        'k' as u8,
        'e' as u8,
        'n' as u8,
        ' ' as u8,
        'p' as u8,
        'i' as u8,
        'p' as u8,
        'e' as u8,
    ]
}

/// The fatal signature as an executable byte vector, for callers that
/// build diagnostic lines or match them outside the monitor.
pub fn fatal_signature_bytes() -> (r: Vec<u8>)
    ensures
        r@ == fatal_signature(),
{
    let a: [u8; 37] = [
        'E' as u8, 'r' as u8, 'r' as u8, 'o' as u8, 'r' as u8, ' ' as u8, 'c' as u8, 'l' as u8,
        'o' as u8, 's' as u8, 'i' as u8, 'n' as u8, 'g' as u8, ' ' as u8, 'f' as u8, 'i' as u8,
        'l' as u8, 'e' as u8, ' ' as u8, 'p' as u8, 'i' as u8, 'p' as u8, 'e' as u8, ':' as u8,
        ':' as u8, ' ' as u8, 'B' as u8, 'r' as u8, 'o' as u8, 'k' as u8, 'e' as u8, 'n' as u8,
        ' ' as u8, 'p' as u8, 'i' as u8, 'p' as u8, 'e' as u8,
    ];
    proof {
        assert(a@ =~= fatal_signature());
    }
    slice_to_vec(&a)
}

/// Severity read off a line: the first tag found decides, info before
/// warning; no tag means unclassified error.
pub open spec fn spec_severity(line: Seq<u8>) -> Severity {
    if contains_seq(line, info_tag()) {
        Severity::Info
    } else if contains_seq(line, warning_tag()) {
        Severity::Warning
    } else {
        Severity::Error
    }
}

/// An unclassified line is suppressed when it comes from the quiet
/// listener process or shows the benign transient message; classified
/// lines are always forwarded.
pub open spec fn spec_suppressed(line: Seq<u8>, source: ProcessId) -> bool {
    spec_severity(line) == Severity::Error && (source == ProcessId::Listener || contains_seq(
        line,
        benign_signature(),
    ))
}

/// The tag belonging to a severity, with the trailing space that
/// separates it from the message text.
pub open spec fn tag_of(sev: Severity) -> Seq<u8> {
    match sev {
        Severity::Info => info_tag() + seq![' ' as u8],
        Severity::Warning => warning_tag() + seq![' ' as u8],
        Severity::Error => error_tag() + seq![' ' as u8],
    }
}

/// A forwarded line: the original with its severity tag stripped.
pub open spec fn spec_forwarded(line: Seq<u8>) -> Seq<u8> {
    strip_seq(line, tag_of(spec_severity(line)))
}

/// What one diagnostic line asks of the embedding program: possibly a
/// classified line for the logging collaborator, possibly a termination
/// signal to the listener.
pub struct MonitorStep {
    /// `Some((severity, text))` when the line is to be forwarded to the
    /// logging collaborator, with the tag stripped.
    pub forward: Option<(Severity, Vec<u8>)>,
    /// True exactly when the fatal signature was seen and the listener's
    /// capability was still armed: the caller sends the one signal.
    pub terminate_listener: bool,
}

/// Classify a line for the logging collaborator, without touching state.
pub fn classify_line(line: &[u8], source: ProcessId) -> (r: Option<(Severity, Vec<u8>)>)
    ensures
        r is Some <==> !spec_suppressed(line@, source),
        r matches Some(f) ==> f.0 == spec_severity(line@) && f.1@ == spec_forwarded(line@),
{
    let a: [u8; 7] = [
        '[' as u8, 'i' as u8, 'n' as u8, 'f' as u8, 'o' as u8, ']' as u8, ' ' as u8,
    ];
    let info_sp: &[u8] = &a;
    let b: [u8; 10] = [
        '[' as u8, 'w' as u8, 'a' as u8, 'r' as u8, 'n' as u8, 'i' as u8, 'n' as u8, 'g' as u8,
        ']' as u8, ' ' as u8,
    ];
    let warn_sp: &[u8] = &b;
    let c: [u8; 14] = [
        '[' as u8, 'l' as u8, 'e' as u8, 'v' as u8, 'e' as u8, 'l' as u8, '+' as u8, 'e' as u8,
        'r' as u8, 'r' as u8, 'o' as u8, 'r' as u8, ']' as u8, ' ' as u8,
    ];
    let err_sp: &[u8] = &c;
    let d: [u8; 18] = [
        'I' as u8, 'n' as u8, 'p' as u8, 'u' as u8, 't' as u8, '/' as u8, 'o' as u8, 'u' as u8,
        't' as u8, 'p' as u8, 'u' as u8, 't' as u8, ' ' as u8, 'e' as u8, 'r' as u8, 'r' as u8,
        'o' as u8, 'r' as u8,
    ];
    let benign: &[u8] = &d;
    proof {
        assert(info_sp@.subrange(0, 6) =~= info_tag());
        assert(info_sp@ =~= tag_of(Severity::Info));
        assert(warn_sp@ =~= tag_of(Severity::Warning));
        assert(err_sp@ =~= tag_of(Severity::Error));
        assert(benign@ =~= benign_signature());
    }
    let e: [u8; 6] = ['[' as u8, 'i' as u8, 'n' as u8, 'f' as u8, 'o' as u8, ']' as u8];
    let info_t: &[u8] = &e;
    let f: [u8; 9] = [
        '[' as u8, 'w' as u8, 'a' as u8, 'r' as u8, 'n' as u8, 'i' as u8, 'n' as u8, 'g' as u8,
        ']' as u8,
    ];
    let warn_t: &[u8] = &f;
    proof {
        assert(info_t@ =~= info_tag());
        assert(warn_t@ =~= warning_tag());
    }
    if contains_pattern(line, info_t) {
        Some((Severity::Info, strip_pattern(line, info_sp)))
    } else if contains_pattern(line, warn_t) {
        Some((Severity::Warning, strip_pattern(line, warn_sp)))
    } else if matches!(source, ProcessId::Listener) || contains_pattern(line, benign) {
        None
    } else {
        Some((Severity::Error, strip_pattern(line, err_sp)))
    }
}

/// The supervision state a fatal line leaves behind: shutdown flag
/// raised, the listener's capability consumed if it was armed, everything
/// else untouched.
pub open spec fn after_fatal(s: PipelineState) -> PipelineState {
    PipelineState {
        listener: fired_slot(s.listener),
        decoder: s.decoder,
        sink: s.sink,
        shutdown: true,
    }
}

/// Observing the same fatal line again changes nothing further, and can
/// never arm a second signal: the listener's capability fires at most
/// once however often the signature recurs.
pub proof fn lemma_fatal_idempotent(s: PipelineState)
    ensures
        after_fatal(after_fatal(s)) == after_fatal(s),
        after_fatal(s).listener != CapabilitySlot::Armed,
{
}

/// Apply one diagnostic line from `source` to the shared state: classify
/// it for the logging collaborator and, when the fatal signature shows,
/// raise the shutdown flag and consume the listener's capability.
pub fn observe_line(state: &mut PipelineState, line: &[u8], source: ProcessId) -> (r: MonitorStep)
    ensures
        r.forward is Some <==> !spec_suppressed(line@, source),
        r.forward matches Some(f) ==> f.0 == spec_severity(line@) && f.1@ == spec_forwarded(
            line@,
        ),
        contains_seq(line@, fatal_signature()) ==> *final(state) == after_fatal(*old(state)),
        !contains_seq(line@, fatal_signature()) ==> *final(state) == *old(state),
        r.terminate_listener == (contains_seq(line@, fatal_signature()) && old(state).listener
            == CapabilitySlot::Armed),
{
    let forward = classify_line(line, source);
    let fatal_sig = fatal_signature_bytes();
    let fatal = contains_pattern(line, fatal_sig.as_slice());
    let mut terminate_listener = false;
    if fatal {
        state.request_stop();
        terminate_listener = state.fire(ProcessId::Listener);
        proof {
            assert(state.slot(ProcessId::Decoder) == old(state).slot(ProcessId::Decoder));
            assert(state.slot(ProcessId::Sink) == old(state).slot(ProcessId::Sink));
            assert(state.slot(ProcessId::Listener) == fired_slot(
                old(state).slot(ProcessId::Listener),
            ));
        }
    }
    MonitorStep { forward, terminate_listener }
}

} // verus!
