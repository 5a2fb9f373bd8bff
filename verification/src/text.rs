//! Byte-level text utilities: substring search and pattern removal.
//!
//! Diagnostic lines and the patterns matched against them are byte
//! sequences; every classification decision in the monitor reduces to the
//! two operations proved here.

use vstd::prelude::*;

verus! {

/// `pat` occurs in `hay` starting at index `i`.
pub open spec fn matches_at(hay: Seq<u8>, pat: Seq<u8>, i: int) -> bool {
    0 <= i && i + pat.len() <= hay.len() && hay.subrange(i, i + pat.len()) == pat
}

/// `pat` occurs somewhere in `hay`.
pub open spec fn contains_seq(hay: Seq<u8>, pat: Seq<u8>) -> bool {
    exists|i: int| matches_at(hay, pat, i)
}

/// `hay` with every (leftmost-first, non-overlapping) occurrence of `pat`
/// removed, scanning left to right.
pub open spec fn strip_seq(s: Seq<u8>, p: Seq<u8>) -> Seq<u8>
    decreases s.len(),
{
    if s.len() == 0 {
        Seq::empty()
    } else if 0 < p.len() && p.len() <= s.len() && s.subrange(0, p.len() as int) == p {
        strip_seq(s.skip(p.len() as int), p)
    } else {
        seq![s[0]] + strip_seq(s.skip(1), p)
    }
}

/// Byte-by-byte check that `pat` occurs in `hay` at position `i`.
fn matches_at_exec(hay: &[u8], pat: &[u8], i: usize) -> (r: bool)
    requires
        i + pat@.len() <= hay@.len(),
    ensures
        r == matches_at(hay@, pat@, i as int),
{
    let n: usize = hay.len();
    let m: usize = pat.len();
    let mut j: usize = 0;
    while j < m
        invariant
            n == hay@.len(),
            m == pat@.len(),
            i + m <= n,
            j <= m,
            forall|k: int| 0 <= k < j ==> hay@[i + k] == pat@[k],
        decreases m - j,
    {
        if hay[i + j] != pat[j] {
            proof {
                assert(hay@.subrange(i as int, i + pat@.len())[j as int] == hay@[i + j]);
            }
            return false;
        }
        j += 1;
    }
    proof {
        assert(hay@.subrange(i as int, i + pat@.len()) =~= pat@);
    }
    true
}

/// Whether `pat` occurs anywhere in `hay`.
pub fn contains_pattern(hay: &[u8], pat: &[u8]) -> (r: bool)
    ensures
        r == contains_seq(hay@, pat@),
{
    let n: usize = hay.len();
    let m: usize = pat.len();
    if m == 0 {
        proof {
            assert(hay@.subrange(0, 0) =~= pat@);
            assert(matches_at(hay@, pat@, 0));
        }
        return true;
    }
    if m > n {
        return false;
    }
    let mut i: usize = 0;
    while i <= n - m
        invariant
            n == hay@.len(),
            m == pat@.len(),
            0 < m <= n,
            i <= n - m + 1,
            forall|k: int| 0 <= k < i ==> !matches_at(hay@, pat@, k),
        decreases n - i,
    {
        if matches_at_exec(hay, pat, i) {
            return true;
        }
        i += 1;
    }
    false
}

/// `hay` with every occurrence of `pat` removed, scanning left to right and
/// never rescanning removed bytes.
pub fn strip_pattern(hay: &[u8], pat: &[u8]) -> (r: Vec<u8>)
    ensures
        r@ == strip_seq(hay@, pat@),
{
    let n: usize = hay.len();
    let mut out: Vec<u8> = Vec::new();
    let mut i: usize = 0;
    proof {
        assert(hay@.skip(0) =~= hay@);
    }
    while i < n
        invariant
            n == hay@.len(),
            i <= n,
            strip_seq(hay@, pat@) == out@ + strip_seq(hay@.skip(i as int), pat@),
        decreases n - i,
    {
        if pat.len() > 0 && pat.len() <= n - i && matches_at_exec(hay, pat, i) {
            proof {
                let suf = hay@.skip(i as int);
                assert(suf.subrange(0, pat@.len() as int) =~= hay@.subrange(
                    i as int,
                    i + pat@.len(),
                ));
                assert(suf.skip(pat@.len() as int) =~= hay@.skip(i + pat@.len()));
            }
            i += pat.len();
        } else {
            let b = hay[i];
            let ghost pre = out@;
            out.push(b);
            proof {
                let suf = hay@.skip(i as int);
                if 0 < pat@.len() && pat@.len() <= suf.len() {
                    assert(suf.subrange(0, pat@.len() as int) =~= hay@.subrange(
                        i as int,
                        i + pat@.len(),
                    ));
                }
                assert(suf[0] == hay@[i as int]);
                assert(suf.skip(1) =~= hay@.skip(i + 1));
                assert(out@ =~= pre + seq![b]);
                assert((pre + seq![b]) + strip_seq(hay@.skip(i + 1), pat@) =~= pre + (seq![
                    b,
                ] + strip_seq(hay@.skip(i + 1), pat@)));
            }
            i += 1;
        }
    }
    proof {
        assert(hay@.skip(i as int) =~= Seq::<u8>::empty());
    }
    out
}

/// Append every byte of `src` to `out`.
pub fn push_all(out: &mut Vec<u8>, src: &[u8])
    ensures
        final(out)@ == old(out)@ + src@,
{
    let n: usize = src.len();
    let mut k: usize = 0;
    while k < n
        invariant
            n == src@.len(),
            k <= n,
            out@ == old(out)@ + src@.take(k as int),
        decreases n - k,
    {
        out.push(src[k]);
        proof {
            assert(old(out)@ + src@.take(k + 1) =~= (old(out)@ + src@.take(k as int)).push(
                src@[k as int],
            ));
        }
        k += 1;
    }
    proof {
        assert(src@.take(n as int) =~= src@);
    }
}

/// A parameter byte of a terminal control sequence: a digit or `;`.
pub open spec fn csi_param(b: u8) -> bool {
    (('0' as u8) <= b && b <= ('9' as u8)) || b == (';' as u8)
}

/// A final byte ending one of the recognized control sequences.
pub open spec fn csi_final(b: u8) -> bool {
    b == ('m' as u8) || b == ('G' as u8) || b == ('K' as u8) || b == ('F' as u8)
}

/// Length of the run of parameter bytes starting at `i`.
pub open spec fn param_run(s: Seq<u8>, i: int) -> nat
    decreases s.len() - i,
{
    if 0 <= i && i < s.len() && csi_param(s[i]) {
        1 + param_run(s, i + 1)
    } else {
        0
    }
}

/// A terminal control sequence — escape, `[`, any run of parameter
/// bytes, one recognized final byte — starts at `i`.
pub open spec fn csi_at(s: Seq<u8>, i: int) -> bool {
    &&& 0 <= i
    &&& i + 2 <= s.len()
    &&& s[i] == 27
    &&& s[i + 1] == ('[' as u8)
    &&& i + 2 + param_run(s, i + 2) < s.len()
    &&& csi_final(s[i + 2 + param_run(s, i + 2)])
}

/// Length of the control sequence starting at `i`, final byte included.
pub open spec fn csi_len(s: Seq<u8>, i: int) -> int {
    3 + param_run(s, i + 2) as int
}

/// The bytes from position `i` on with every control sequence removed.
pub open spec fn strip_csi_from(s: Seq<u8>, i: int) -> Seq<u8>
    decreases s.len() - i,
{
    if i < 0 || i >= s.len() {
        Seq::empty()
    } else if csi_at(s, i) {
        strip_csi_from(s, i + csi_len(s, i))
    } else {
        seq![s[i]] + strip_csi_from(s, i + 1)
    }
}

/// `s` with every terminal control sequence removed.
pub open spec fn strip_csi_seq(s: Seq<u8>) -> Seq<u8> {
    strip_csi_from(s, 0)
}

/// The run of parameter bytes is exactly what a left-to-right scan that
/// stopped at `j` saw.
proof fn lemma_param_run_value(s: Seq<u8>, start: int, j: int)
    requires
        0 <= start <= j <= s.len(),
        forall|k: int| start <= k < j ==> csi_param(s[k]),
        j == s.len() || !csi_param(s[j]),
    ensures
        param_run(s, start) == j - start,
    decreases j - start,
{
    if start < j {
        lemma_param_run_value(s, start + 1, j);
    }
}

/// Whether `b` is a parameter byte.
fn is_csi_param(b: u8) -> (r: bool)
    ensures
        r == csi_param(b),
{
    (48 <= b && b <= 57) || b == 59
}

/// Whether `b` is a recognized final byte.
fn is_csi_final(b: u8) -> (r: bool)
    ensures
        r == csi_final(b),
{
    b == 109 || b == 71 || b == 75 || b == 70
}

/// `s` with every terminal control sequence removed, scanning left to
/// right.
pub fn strip_ansi_codes(s: &[u8]) -> (r: Vec<u8>)
    ensures
        r@ == strip_csi_seq(s@),
{
    let n: usize = s.len();
    let mut out: Vec<u8> = Vec::new();
    let mut i: usize = 0;
    while i < n
        invariant
            n == s@.len(),
            i <= n,
            strip_csi_seq(s@) == out@ + strip_csi_from(s@, i as int),
        decreases n - i,
    {
        let mut skipped = false;
        if s[i] == 27 && i + 1 < n && s[i + 1] == 91 {
            let mut j: usize = i + 2;
            while j < n && is_csi_param(s[j])
                invariant
                    n == s@.len(),
                    i + 2 <= j <= n,
                    forall|k: int| i + 2 <= k < j ==> csi_param(s@[k]),
                decreases n - j,
            {
                j += 1;
            }
            proof {
                lemma_param_run_value(s@, i + 2, j as int);
            }
            if j < n && is_csi_final(s[j]) {
                proof {
                    assert(csi_at(s@, i as int));
                    assert(i + csi_len(s@, i as int) == j + 1);
                }
                i = j + 1;
                skipped = true;
            }
        }
        if !skipped {
            let ghost pre = out@;
            out.push(s[i]);
            proof {
                assert(!csi_at(s@, i as int));
                assert(pre + (seq![s@[i as int]] + strip_csi_from(s@, i + 1)) =~= (pre + seq![
                    s@[i as int],
                ]) + strip_csi_from(s@, i + 1));
                assert(out@ =~= pre + seq![s@[i as int]]);
            }
            i += 1;
        }
    }
    proof {
        assert(strip_csi_from(s@, i as int) =~= Seq::<u8>::empty());
    }
    out
}

} // verus!
