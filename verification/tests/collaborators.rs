//! Tests for the collaborator-facing logic: mail batching, the logging
//! plan, and the persistence startup pieces.

use pipefeed::logging::{is_warning_level, log_path_choice, logging_plan};
use pipefeed::mailer::{mail_threshold, render_mail_body, should_queue, MailBatch, MAIL_WINDOW_MILLIS};
use pipefeed::monitor::Severity;
use pipefeed::store::{db_path_choice, generate_secret, SECRET_LEN};

#[test]
fn batch_flushes_once_the_window_elapsed() {
    let mut batch = MailBatch::new(MAIL_WINDOW_MILLIS, 0);
    assert_eq!(batch.queue(b"first".to_vec(), 1000), None);
    assert_eq!(batch.queue(b"second".to_vec(), 25000), None);
    let flushed = batch.queue(b"third".to_vec(), 31000);
    assert_eq!(
        flushed,
        Some(vec![b"first".to_vec(), b"second".to_vec(), b"third".to_vec()])
    );
    // The window reset: the next line opens a new batch.
    assert_eq!(batch.queue(b"fourth".to_vec(), 31001), None);
}

#[test]
fn window_opens_with_the_first_queued_message() {
    let mut batch = MailBatch::new(MAIL_WINDOW_MILLIS, 0);
    assert_eq!(batch.queue(b"a".to_vec(), 100000), None);
    // 30s after the first message, not after creation.
    assert_eq!(batch.queue(b"b".to_vec(), 129999), None);
    let flushed = batch.queue(b"c".to_vec(), 130000);
    assert_eq!(
        flushed,
        Some(vec![b"a".to_vec(), b"b".to_vec(), b"c".to_vec()])
    );
}

#[test]
fn only_grave_enough_lines_are_queued() {
    assert!(should_queue(Severity::Error, Severity::Error));
    assert!(!should_queue(Severity::Warning, Severity::Error));
    assert!(should_queue(Severity::Warning, Severity::Warning));
    assert!(should_queue(Severity::Error, Severity::Warning));
    assert!(!should_queue(Severity::Info, Severity::Warning));
    assert!(!should_queue(Severity::Info, Severity::Info));
}

#[test]
fn threshold_follows_the_configuration() {
    assert_eq!(mail_threshold(true), Severity::Warning);
    assert_eq!(mail_threshold(false), Severity::Error);
}

#[test]
fn mail_body_joins_lines_and_strips_colors() {
    let lines = vec![b"plain".to_vec(), b"\x1b[31mred alert\x1b[0m".to_vec()];
    assert_eq!(render_mail_body(&lines), b"plain\nred alert".to_vec());
    assert_eq!(render_mail_body(&Vec::new()), Vec::<u8>::new());
    assert_eq!(render_mail_body(&vec![b"one".to_vec()]), b"one".to_vec());
}

#[test]
fn warning_level_name_is_recognized_case_insensitively() {
    assert!(is_warning_level(b"warning"));
    assert!(is_warning_level(b"Warning"));
    assert!(is_warning_level(b"WARNING"));
    assert!(!is_warning_level(b"warn"));
    assert!(!is_warning_level(b"error"));
}

#[test]
fn log_path_follows_what_exists() {
    assert_eq!(
        log_path_choice(b"/var/log/play", true, false),
        b"/var/log/play/ffplayout.log".to_vec()
    );
    assert_eq!(
        log_path_choice(b"/tmp/out.log", false, true),
        b"/tmp/out.log".to_vec()
    );
    assert_eq!(
        log_path_choice(b"missing", false, false),
        b"logs/ffplayout.log".to_vec()
    );
}

#[test]
fn logging_plan_assembles_every_decision() {
    let plan = logging_plan(true, true, b"/var/log/play", true, false, 12, b"WARNING");
    assert!(plan.timestamps);
    assert!(plan.to_file);
    assert_eq!(plan.file_path, b"/var/log/play/ffplayout.log".to_vec());
    assert!(plan.mail);
    assert_eq!(plan.mail_threshold, Severity::Warning);

    let quiet = logging_plan(false, false, b"x", false, false, 3, b"error");
    assert!(!quiet.mail);
    assert_eq!(quiet.mail_threshold, Severity::Error);
}

#[test]
fn generated_secret_is_eighty_alphanumerics() {
    let s = generate_secret();
    assert_eq!(s.len(), SECRET_LEN);
    assert!(s.chars().all(|c| c.is_ascii_alphanumeric()));
    // Two draws almost surely differ; equal draws would hint the
    // randomness is not consulted at all.
    let t = generate_secret();
    assert!(s != t);
}

#[test]
fn db_path_prefers_the_system_store() {
    assert_eq!(
        db_path_choice(true, true),
        "/usr/share/ffplayout/ffplayout.db".to_string()
    );
    assert_eq!(db_path_choice(false, true), "./assets/ffplayout.db".to_string());
    assert_eq!(db_path_choice(false, false), "./ffplayout.db".to_string());
}
