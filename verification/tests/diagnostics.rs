//! Tests for diagnostic-line classification, fatal detection, and the
//! byte-level text utilities they rest on.

use pipefeed::monitor::{classify_line, fatal_signature_bytes, observe_line, Severity};
use pipefeed::pipeline::{CapabilitySlot, PipelineState, ProcessId};
use pipefeed::text::{contains_pattern, strip_ansi_codes, strip_pattern};

#[test]
fn substring_search_finds_patterns() {
    assert!(contains_pattern(b"frame dropped: Broken pipe!", b"Broken pipe"));
    assert!(!contains_pattern(b"frame dropped", b"Broken pipe"));
    assert!(contains_pattern(b"anything", b""));
    assert!(!contains_pattern(b"ab", b"abc"));
}

#[test]
fn pattern_stripping_removes_every_occurrence() {
    let r = strip_pattern(b"[info] a [info] b", b"[info] ");
    assert_eq!(r, b"a b".to_vec());
    let untouched = strip_pattern(b"plain line", b"[info] ");
    assert_eq!(untouched, b"plain line".to_vec());
}

#[test]
fn ansi_codes_are_removed() {
    let r = strip_ansi_codes(b"\x1b[32mgreen\x1b[0m plain");
    assert_eq!(r, b"green plain".to_vec());
    let colons = strip_ansi_codes(b"\x1b[30;1m[12:00:00]\x1b[0m tick");
    assert_eq!(colons, b"[12:00:00] tick".to_vec());
    // An escape that never reaches a recognized final byte stays.
    let partial = strip_ansi_codes(b"\x1b[31x");
    assert_eq!(partial, b"\x1b[31x".to_vec());
}

#[test]
fn tagged_lines_are_forwarded_with_the_tag_stripped() {
    let info = classify_line(b"[info] client connected", ProcessId::Decoder);
    assert_eq!(info, Some((Severity::Info, b"client connected".to_vec())));
    let warn = classify_line(b"[warning] disk nearly full", ProcessId::Sink);
    assert_eq!(warn, Some((Severity::Warning, b"disk nearly full".to_vec())));
    let err = classify_line(b"[level+error] bad frame", ProcessId::Decoder);
    assert_eq!(err, Some((Severity::Error, b"bad frame".to_vec())));
}

#[test]
fn quiet_listener_noise_is_suppressed() {
    assert_eq!(classify_line(b"handshake retry", ProcessId::Listener), None);
    // The same unclassified line from another process is forwarded.
    let r = classify_line(b"handshake retry", ProcessId::Decoder);
    assert_eq!(r, Some((Severity::Error, b"handshake retry".to_vec())));
}

#[test]
fn benign_transient_message_is_suppressed() {
    let r = classify_line(b"read: Input/output error", ProcessId::Decoder);
    assert_eq!(r, None);
    // But a classified line showing it is still forwarded.
    let tagged = classify_line(b"[warning] Input/output error", ProcessId::Decoder);
    assert_eq!(
        tagged,
        Some((Severity::Warning, b"Input/output error".to_vec()))
    );
}

#[test]
fn warning_line_does_not_touch_the_state() {
    let mut st = PipelineState::new();
    st.register(ProcessId::Listener);
    let step = observe_line(&mut st, b"[warning] disk nearly full", ProcessId::Sink);
    assert_eq!(
        step.forward,
        Some((Severity::Warning, b"disk nearly full".to_vec()))
    );
    assert!(!step.terminate_listener);
    assert!(!st.shutdown);
    assert_eq!(st.listener, CapabilitySlot::Armed);
}

#[test]
fn fatal_signature_terminates_the_listener_exactly_once() {
    let mut line = b"av write: ".to_vec();
    line.extend(fatal_signature_bytes());

    let mut st = PipelineState::new();
    st.register(ProcessId::Listener);

    let first = observe_line(&mut st, &line, ProcessId::Sink);
    assert!(first.terminate_listener);
    assert!(st.shutdown);
    assert_eq!(st.listener, CapabilitySlot::Fired);

    // A duplicate observation — another monitor, the same millisecond —
    // changes nothing and arms no second signal.
    let second = observe_line(&mut st, &line, ProcessId::Decoder);
    assert!(!second.terminate_listener);
    assert!(st.shutdown);
    assert_eq!(st.listener, CapabilitySlot::Fired);
}

#[test]
fn fatal_signature_with_no_listener_registered_only_sets_the_flag() {
    let line = fatal_signature_bytes();
    let mut st = PipelineState::new();
    let step = observe_line(&mut st, &line, ProcessId::Decoder);
    assert!(!step.terminate_listener);
    assert!(st.shutdown);
    assert_eq!(st.listener, CapabilitySlot::Empty);
}

#[test]
fn fatal_signature_bytes_spell_the_signature() {
    assert_eq!(
        fatal_signature_bytes(),
        b"Error closing file pipe:: Broken pipe".to_vec()
    );
}
