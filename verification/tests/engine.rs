//! Scenario tests for the supervision and relay engine.

use pipefeed::mixer::{decide_fallback, decide_iteration, run_mixer, FallbackStep, MixDecision, SinkWrite};
use pipefeed::pipeline::{CapabilitySlot, PipelineState, ProcessId};
use pipefeed::shutdown::request_shutdown;
use pipefeed::supervisor::{run_supervisor, supervisor_step, SupervisorEvent, SupervisorPhase};

#[test]
fn chunk_size_is_fixed() {
    assert_eq!(pipefeed::CHUNK_SIZE, 65424);
}

#[test]
fn registration_arms_a_slot() {
    let mut st = PipelineState::new();
    assert_eq!(st.listener, CapabilitySlot::Empty);
    assert!(!st.shutdown);
    st.register(ProcessId::Listener);
    assert_eq!(st.listener, CapabilitySlot::Armed);
    assert_eq!(st.decoder, CapabilitySlot::Empty);
}

#[test]
fn firing_an_empty_slot_is_a_no_op() {
    let mut st = PipelineState::new();
    assert!(!st.fire(ProcessId::Decoder));
    assert_eq!(st.decoder, CapabilitySlot::Empty);
}

#[test]
fn a_capability_fires_at_most_once() {
    let mut st = PipelineState::new();
    st.register(ProcessId::Sink);
    assert!(st.fire(ProcessId::Sink));
    assert!(!st.fire(ProcessId::Sink));
    assert_eq!(st.sink, CapabilitySlot::Fired);
}

#[test]
fn shutdown_runs_in_fixed_order_and_only_once() {
    let mut st = PipelineState::new();
    st.register(ProcessId::Listener);
    st.register(ProcessId::Decoder);
    st.register(ProcessId::Sink);

    let steps = request_shutdown(&mut st);
    assert!(st.shutdown);
    let order: Vec<(ProcessId, bool)> = steps.iter().map(|s| (s.target, s.signal)).collect();
    assert_eq!(
        order,
        vec![
            (ProcessId::Decoder, true),
            (ProcessId::Sink, true),
            (ProcessId::Listener, true),
        ]
    );

    // A second invocation tolerates the already-fired capabilities:
    // every step is a no-op, no process is signalled twice.
    let again = request_shutdown(&mut st);
    assert!(again.iter().all(|s| !s.signal));
    assert!(st.shutdown);
}

#[test]
fn shutdown_tolerates_missing_capabilities() {
    let mut st = PipelineState::new();
    st.register(ProcessId::Decoder);
    let steps = request_shutdown(&mut st);
    assert_eq!(steps[0].target, ProcessId::Decoder);
    assert!(steps[0].signal);
    assert!(!steps[1].signal);
    assert!(!steps[2].signal);
}

#[test]
fn listener_dying_on_every_spawn_is_retried_until_the_flag() {
    // The listener process exits immediately on every spawn attempt.
    let mut history: Vec<(SupervisorEvent, bool)> = Vec::new();
    for _ in 0..3 {
        history.push((SupervisorEvent::SpawnOk, false));
        history.push((SupervisorEvent::StreamFault, false));
        history.push((SupervisorEvent::Reaped, false));
        history.push((SupervisorEvent::BackoffElapsed, false));
    }
    // After any number of attempts the loop is about to spawn again —
    // and no chunk was ever relayed.
    assert_eq!(
        run_supervisor(SupervisorPhase::Spawning, &history),
        SupervisorPhase::Spawning
    );
    assert!(history.iter().all(|(e, _)| *e != SupervisorEvent::ChunkRelayed));

    // The flag turns true externally: the loop stops at the first pause
    // between listeners, within one backoff interval.
    history.push((SupervisorEvent::SpawnOk, false));
    history.push((SupervisorEvent::StreamFault, false));
    history.push((SupervisorEvent::Reaped, true));
    assert_eq!(
        run_supervisor(SupervisorPhase::Spawning, &history),
        SupervisorPhase::Stopped
    );
}

#[test]
fn shutdown_during_backoff_prevents_the_next_spawn() {
    let history = vec![(SupervisorEvent::BackoffElapsed, true)];
    assert_eq!(
        run_supervisor(SupervisorPhase::BackingOff, &history),
        SupervisorPhase::Stopped
    );
}

#[test]
fn a_failed_spawn_is_fatal_and_never_retried() {
    let history = vec![(SupervisorEvent::SpawnFailed, false)];
    assert_eq!(
        run_supervisor(SupervisorPhase::Spawning, &history),
        SupervisorPhase::Failed
    );
}

#[test]
fn a_dropped_receiver_stops_the_supervisor_silently() {
    let history = vec![
        (SupervisorEvent::SpawnOk, false),
        (SupervisorEvent::ChunkRelayed, false),
        (SupervisorEvent::ChunkRejected, false),
    ];
    assert_eq!(
        run_supervisor(SupervisorPhase::Spawning, &history),
        SupervisorPhase::Stopped
    );
}

#[test]
fn successful_spawn_registers_the_capability() {
    let mut st = PipelineState::new();
    let next = supervisor_step(SupervisorPhase::Spawning, SupervisorEvent::SpawnOk, &mut st);
    assert_eq!(next, SupervisorPhase::Draining);
    assert_eq!(st.listener, CapabilitySlot::Armed);
}

#[test]
fn pure_fallback_run_reaches_the_sink_in_order() {
    // Fallback decoder yields three chunks then end-of-stream; no ingest
    // chunk ever arrives.
    let c1 = vec![1u8; 16];
    let c2 = vec![2u8; 16];
    let c3 = vec![3u8; 16];
    let writes = run_mixer(
        Vec::new(),
        vec![c1.clone(), c2.clone(), c3.clone(), Vec::new()],
    );
    assert_eq!(
        writes,
        vec![
            SinkWrite::Fallback(c1),
            SinkWrite::Fallback(c2),
            SinkWrite::Fallback(c3),
        ]
    );

    // The mixer's normal completion routes into the one termination
    // sequence: decoder, sink, listener, each exactly once.
    let mut st = PipelineState::new();
    st.register(ProcessId::Listener);
    st.register(ProcessId::Decoder);
    st.register(ProcessId::Sink);
    let steps = request_shutdown(&mut st);
    assert_eq!(steps.len(), 3);
    assert_eq!(steps[0].target, ProcessId::Decoder);
    assert_eq!(steps[1].target, ProcessId::Sink);
    assert_eq!(steps[2].target, ProcessId::Listener);
    assert!(steps.iter().all(|s| s.signal));
}

#[test]
fn live_chunk_preempts_available_fallback_bytes() {
    // An ingest chunk becomes available mid-stream: the sink receives it
    // before any further fallback bytes.
    let f1 = vec![10u8; 8];
    let f2 = vec![20u8; 8];
    let i1 = vec![99u8; 8];
    let writes = run_mixer(
        vec![Vec::new(), vec![i1.clone()]],
        vec![f1.clone(), f2.clone(), Vec::new()],
    );
    assert_eq!(
        writes,
        vec![
            SinkWrite::Fallback(f1),
            SinkWrite::Ingest(i1),
            SinkWrite::Fallback(f2),
        ]
    );
}

#[test]
fn queued_chunks_drain_before_fallback_resumes() {
    let f1 = vec![7u8; 4];
    let i1 = vec![1u8; 4];
    let i2 = vec![2u8; 4];
    let writes = run_mixer(
        vec![vec![i1.clone(), i2.clone()]],
        vec![f1.clone(), Vec::new()],
    );
    assert_eq!(
        writes,
        vec![
            SinkWrite::Ingest(i1),
            SinkWrite::Ingest(i2),
            SinkWrite::Fallback(f1),
        ]
    );
}

#[test]
fn iteration_decision_prefers_the_ingest_chunk() {
    let chunk = vec![5u8; 4];
    assert_eq!(
        decide_iteration(Some(chunk.clone())),
        MixDecision::ForwardIngest(chunk)
    );
    assert_eq!(decide_iteration(None), MixDecision::ReadFallback);
}

#[test]
fn empty_fallback_read_ends_the_loop() {
    assert_eq!(decide_fallback(Vec::new()), FallbackStep::EndOfStream);
    let bytes = vec![9u8, 8, 7];
    assert_eq!(
        decide_fallback(bytes.clone()),
        FallbackStep::Forward(bytes)
    );
}

#[test]
fn listener_and_decoder_share_the_encoding_tail() {
    let listener = pipefeed::command::listener_args();
    let decoder = pipefeed::command::decoder_args();
    let tail = [
        "-pix_fmt", "yuv420p", "-c:v", "mpeg2video", "-g", "1", "-b:v", "50000k", "-minrate",
        "50000k", "-maxrate", "50000k", "-bufsize", "25000k", "-c:a", "s302m", "-strict", "-2",
        "-ar", "48000", "-ac", "2", "-f", "mpegts", "-",
    ];
    assert!(listener.len() > tail.len());
    assert!(decoder.len() > tail.len());
    assert_eq!(&listener[listener.len() - tail.len()..], &tail[..]);
    assert_eq!(&decoder[decoder.len() - tail.len()..], &tail[..]);
    assert_eq!(listener[..2], ["-hide_banner".to_string(), "-nostats".to_string()]);
    assert_eq!(
        pipefeed::command::sink_args(),
        vec!["-v", "level+error", "-hide_banner", "-nostats", "-i", "pipe:0"]
    );
}
