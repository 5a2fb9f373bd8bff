//! Decisions behind the logging setup: where the log goes, whether
//! timestamps are printed, and whether — and at what threshold — a mail
//! logger joins in.  Building the actual loggers, files and transports is
//! the embedding program's work; it follows the plan decided here.

use vstd::prelude::*;

use crate::mailer::mail_threshold;
use crate::monitor::Severity;
use crate::text::push_all;
use vstd::slice::slice_to_vec;

verus! {

/// A byte lowered to its ASCII lower-case form.
pub open spec fn lower_byte(b: u8) -> u8 {
    if ('A' as u8) <= b && b <= ('Z' as u8) {
        (b + 32) as u8
    } else {
        b
    }
}

/// The two byte strings are equal up to ASCII case.
pub open spec fn eq_ignore_ascii_case_seq(a: Seq<u8>, b: Seq<u8>) -> bool {
    a.len() == b.len() && forall|i: int| 0 <= i < a.len() ==> lower_byte(a[i]) == lower_byte(b[i])
}

/// Bytes of the configuration word `warning`.
pub open spec fn warning_word() -> Seq<u8> {
    seq![
        'w' as u8,
        'a' as u8,
        'r' as u8,
        'n' as u8,
        'i' as u8,
        'n' as u8,
        'g' as u8,
    ]
}

/// Whether a configured mail level names the warning level, compared
/// without regard to ASCII case.
pub fn is_warning_level(name: &[u8]) -> (r: bool)
    ensures
        r == eq_ignore_ascii_case_seq(name@, warning_word()),
{
    let w: [u8; 7] = [
        'w' as u8, 'a' as u8, 'r' as u8, 'n' as u8, 'i' as u8, 'n' as u8, 'g' as u8,
    ];
    proof {
        assert(w@ =~= warning_word());
        assert forall|k: int| 0 <= k < 7 implies lower_byte(#[trigger] warning_word()[k])
            == warning_word()[k] by {
            if k == 0 {
            } else if k == 1 {
            } else if k == 2 {
            } else if k == 3 {
            } else if k == 4 {
            } else if k == 5 {
            } else {
                assert(k == 6);
            }
        }
    }
    let n: usize = name.len();
    if n != 7 {
        return false;
    }
    let mut i: usize = 0;
    while i < 7
        invariant
            n == name@.len(),
            n == 7,
            i <= 7,
            w@ == warning_word(),
            forall|k: int|
                0 <= k < 7 ==> lower_byte(#[trigger] warning_word()[k]) == warning_word()[k],
            forall|k: int| 0 <= k < i ==> lower_byte(name@[k]) == lower_byte(warning_word()[k]),
        decreases 7 - i,
    {
        let b = name[i];
        let lowered = if 65 <= b && b <= 90 {
            b + 32
        } else {
            b
        };
        proof {
            assert(lowered == lower_byte(name@[i as int]));
            assert(w@[i as int] == warning_word()[i as int]);
            assert(lower_byte(warning_word()[i as int]) == warning_word()[i as int]);
        }
        if lowered != w[i] {
            proof {
                assert(lower_byte(name@[i as int]) != lower_byte(warning_word()[i as int]));
            }
            return false;
        }
        i += 1;
    }
    true
}

/// Bytes of the default log file path `logs/ffplayout.log`.
pub open spec fn default_log_path() -> Seq<u8> {
    seq![
        'l' as u8,
        'o' as u8,
        'g' as u8,
        's' as u8,
        '/' as u8,
        'f' as u8,
        'f' as u8,
        'p' as u8,
        'l' as u8,
        'a' as u8,
        'y' as u8,
        'o' as u8,
        'u' as u8,
        't' as u8,
        '.' as u8,
        'l' as u8,
        'o' as u8,
        'g' as u8,
    ]
}

/// Bytes of the file name `/ffplayout.log` appended to a configured
/// directory.
pub open spec fn log_file_suffix() -> Seq<u8> {
    seq![
        '/' as u8,
        'f' as u8,
        'f' as u8,
        'p' as u8,
        'l' as u8,
        'a' as u8,
        'y' as u8,
        'o' as u8,
        'u' as u8,
        't' as u8,
        '.' as u8,
        'l' as u8,
        'o' as u8,
        'g' as u8,
    ]
}

/// Where the log file goes: into a configured directory under the
/// standard name, at a configured file directly, or — when the
/// configured path names neither — at the default location.
pub fn log_path_choice(configured: &[u8], is_dir: bool, is_file: bool) -> (r: Vec<u8>)
    ensures
        is_dir ==> r@ == configured@ + log_file_suffix(),
        !is_dir && is_file ==> r@ == configured@,
        !is_dir && !is_file ==> r@ == default_log_path(),
{
    if is_dir {
        let sfx: [u8; 14] = [
            '/' as u8, 'f' as u8, 'f' as u8, 'p' as u8, 'l' as u8, 'a' as u8, 'y' as u8,
            'o' as u8, 'u' as u8, 't' as u8, '.' as u8, 'l' as u8, 'o' as u8, 'g' as u8,
        ];
        proof {
            assert(sfx@ =~= log_file_suffix());
        }
        let mut path = slice_to_vec(configured);
        push_all(&mut path, &sfx);
        path
    } else if is_file {
        slice_to_vec(configured)
    } else {
        let dflt: [u8; 18] = [
            'l' as u8, 'o' as u8, 'g' as u8, 's' as u8, '/' as u8, 'f' as u8, 'f' as u8,
            'p' as u8, 'l' as u8, 'a' as u8, 'y' as u8, 'o' as u8, 'u' as u8, 't' as u8,
            '.' as u8, 'l' as u8, 'o' as u8, 'g' as u8,
        ];
        proof {
            assert(dflt@ =~= default_log_path());
        }
        slice_to_vec(&dflt)
    }
}

/// The logging setup the embedding program builds.
pub struct LoggingPlan {
    /// Print a timestamp on each line (error-level time tag) or none.
    pub timestamps: bool,
    /// Log to a rotated file rather than the terminal.
    pub to_file: bool,
    /// Path of the log file; meaningful only when `to_file`.
    pub file_path: Vec<u8>,
    /// Whether a mail logger is added at all: only once a recipient of
    /// plausible length is configured.
    pub mail: bool,
    /// The mail logger's severity threshold; meaningful only when `mail`.
    pub mail_threshold: Severity,
}

/// Decide the whole logging setup from the configuration and what the
/// embedding program found on disk.
pub fn logging_plan(
    timestamp: bool,
    log_to_file: bool,
    configured_path: &[u8],
    path_is_dir: bool,
    path_is_file: bool,
    recipient_len: usize,
    mail_level: &[u8],
) -> (r: LoggingPlan)
    ensures
        r.timestamps == timestamp,
        r.to_file == log_to_file,
        path_is_dir ==> r.file_path@ == configured_path@ + log_file_suffix(),
        !path_is_dir && path_is_file ==> r.file_path@ == configured_path@,
        !path_is_dir && !path_is_file ==> r.file_path@ == default_log_path(),
        r.mail == (recipient_len > 3),
        r.mail_threshold == (if eq_ignore_ascii_case_seq(mail_level@, warning_word()) {
            Severity::Warning
        } else {
            Severity::Error
        }),
{
    let file_path = log_path_choice(configured_path, path_is_dir, path_is_file);
    let threshold = mail_threshold(is_warning_level(mail_level));
    LoggingPlan {
        timestamps: timestamp,
        to_file: log_to_file,
        file_path,
        mail: recipient_len > 3,
        mail_threshold: threshold,
    }
}

} // verus!
