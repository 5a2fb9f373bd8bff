//! The alerting collaborator's decisions: which diagnostic lines are
//! queued for mail, and when a queued batch is flushed as one
//! notification.
//!
//! The monitor produces classified lines; this module batches the ones at
//! or above the configured threshold and, once the time window has
//! elapsed since the first queued message, hands the whole batch back for
//! delivery and resets the window.  Delivery itself (the SMTP transport)
//! is the embedding program's work and never blocks the producer.

use vstd::prelude::*;

use crate::monitor::Severity;
use crate::text::{push_all, strip_ansi_codes, strip_csi_seq};

verus! {

/// Default length of the batching window, in milliseconds.
pub const MAIL_WINDOW_MILLIS: u64 = 30000;

/// Rank of a severity: higher is graver.
pub open spec fn severity_rank(s: Severity) -> int {
    match s {
        Severity::Info => 0,
        Severity::Warning => 1,
        Severity::Error => 2,
    }
}

/// Whether a line of severity `sev` is queued for mail under
/// `threshold`: it must reach the threshold, and informational lines are
/// never mailed.
pub fn should_queue(sev: Severity, threshold: Severity) -> (r: bool)
    ensures
        r == (severity_rank(sev) >= severity_rank(threshold) && sev != Severity::Info),
{
    let reaches = match (sev, threshold) {
        (Severity::Info, Severity::Info) => true,
        (Severity::Info, _) => false,
        (Severity::Warning, Severity::Error) => false,
        (Severity::Warning, _) => true,
        (Severity::Error, _) => true,
    };
    reaches && !matches!(sev, Severity::Info)
}

/// The configured mail threshold: warnings and errors when the
/// configuration asks for warnings, errors alone otherwise.
pub fn mail_threshold(wants_warnings: bool) -> (r: Severity)
    ensures
        r == (if wants_warnings {
            Severity::Warning
        } else {
            Severity::Error
        }),
{
    if wants_warnings {
        Severity::Warning
    } else {
        Severity::Error
    }
}

/// Lines queued for one notification, and the window that decides when
/// they are sent.
pub struct MailBatch {
    /// Millisecond timestamp at which the current window opened: the
    /// arrival of the first queued message of the batch.
    pub window_start: u64,
    /// Window length in milliseconds.
    pub limit: u64,
    /// The queued lines, oldest first.
    pub pending: Vec<Vec<u8>>,
}

impl MailBatch {
    /// An empty batch with the given window length.
    pub fn new(limit: u64, now: u64) -> (r: MailBatch)
        ensures
            r.limit == limit,
            r.window_start == now,
            r.pending@.len() == 0,
    {
        MailBatch { window_start: now, limit, pending: Vec::new() }
    }

    /// Queue one line at time `now`.  The window opens with the first
    /// message of a batch; once it has elapsed, the call returns the
    /// whole batch — the queued lines in arrival order, this one last —
    /// for delivery as a single notification, and resets the window.
    pub fn queue(&mut self, msg: Vec<u8>, now: u64) -> (flush: Option<Vec<Vec<u8>>>)
        ensures
            final(self).limit == old(self).limit,
            ({
                let start = if old(self).pending@.len() == 0 {
                    now
                } else {
                    old(self).window_start
                };
                &&& (flush is Some <==> now >= start + old(self).limit)
                &&& (flush matches Some(batch) ==> batch@ == old(self).pending@.push(msg)
                    && final(self).pending@.len() == 0 && final(self).window_start == now)
                &&& (flush is None ==> final(self).pending@ == old(self).pending@.push(msg)
                    && final(self).window_start == start)
            }),
    {
        if self.pending.len() == 0 {
            self.window_start = now;
        }
        self.pending.push(msg);
        if now >= self.window_start && now - self.window_start >= self.limit {
            let mut batch: Vec<Vec<u8>> = Vec::new();
            core::mem::swap(&mut self.pending, &mut batch);
            self.window_start = now;
            Some(batch)
        } else {
            None
        }
    }
}

/// The queued lines joined with single newlines, in order.
pub open spec fn join_lines(ls: Seq<Seq<u8>>) -> Seq<u8>
    decreases ls.len(),
{
    if ls.len() == 0 {
        Seq::empty()
    } else if ls.len() == 1 {
        ls[0]
    } else {
        ls[0] + seq![10u8] + join_lines(ls.skip(1))
    }
}

/// Joining one more line appends a newline and the line.
proof fn lemma_join_snoc(ls: Seq<Seq<u8>>, x: Seq<u8>)
    ensures
        join_lines(ls.push(x)) == if ls.len() == 0 {
            x
        } else {
            join_lines(ls) + seq![10u8] + x
        },
    decreases ls.len(),
{
    if ls.len() == 0 {
        assert(ls.push(x)[0] == x);
    } else {
        assert(ls.push(x).skip(1) =~= ls.skip(1).push(x));
        lemma_join_snoc(ls.skip(1), x);
        if ls.len() == 1 {
            assert(ls.skip(1).len() == 0);
            assert(join_lines(ls.push(x)) == ls[0] + seq![10u8] + x);
            assert(join_lines(ls) == ls[0]);
        } else {
            assert(join_lines(ls.push(x)) == ls[0] + seq![10u8] + (join_lines(ls.skip(1)) + seq![
                10u8,
            ] + x));
            assert(ls[0] + seq![10u8] + (join_lines(ls.skip(1)) + seq![10u8] + x) =~= (ls[0]
                + seq![10u8] + join_lines(ls.skip(1))) + seq![10u8] + x);
        }
    }
}

/// The body of one notification: the batch's lines joined with newlines,
/// with every terminal control sequence removed so the mail reads clean.
pub fn render_mail_body(lines: &Vec<Vec<u8>>) -> (r: Vec<u8>)
    ensures
        r@ == strip_csi_seq(join_lines(lines@.map_values(|v: Vec<u8>| v@))),
{
    let ghost views = lines@.map_values(|v: Vec<u8>| v@);
    let n: usize = lines.len();
    let mut joined: Vec<u8> = Vec::new();
    let mut k: usize = 0;
    while k < n
        invariant
            n == lines@.len(),
            k <= n,
            views == lines@.map_values(|v: Vec<u8>| v@),
            joined@ == join_lines(views.take(k as int)),
        decreases n - k,
    {
        if k > 0 {
            joined.push(10);
        }
        push_all(&mut joined, lines[k].as_slice());
        proof {
            assert(views.take(k + 1) =~= views.take(k as int).push(views[k as int]));
            lemma_join_snoc(views.take(k as int), views[k as int]);
            if k > 0 {
                assert((join_lines(views.take(k as int)) + seq![10u8]) + views[k as int]
                    =~= join_lines(views.take(k as int)) + seq![10u8] + views[k as int]);
            }
        }
        k += 1;
    }
    proof {
        assert(views.take(n as int) =~= views);
    }
    strip_ansi_codes(joined.as_slice())
}

} // verus!
