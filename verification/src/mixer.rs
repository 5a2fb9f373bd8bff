//! The steady-state relay loop: pull bytes from the fallback decoder,
//! preempt them with ingest chunks whenever any are ready, forward the
//! chosen bytes to the sink.
//!
//! Each iteration first takes in what the ingest channel delivered, then
//! forwards either the head ingest chunk or one blocking fallback read —
//! never both.  A zero-length fallback read is the stream's end and stops
//! the loop; ingest data still queued is outrun by the shutdown that
//! follows, exactly as when live data dries up in flight.
//!
//! `spec_mix` is the loop's full specification; `run_mixer` executes it
//! over a recorded schedule, and the per-iteration decision functions let
//! the embedding program take one verified decision per real iteration.

use vstd::prelude::*;

verus! {

/// One write to the sink process's input, attributed to its source.
#[derive(PartialEq, Eq, Debug)]
pub enum SinkWrite {
    /// A whole ingest chunk, forwarded with priority.
    Ingest(Vec<u8>),
    /// The bytes of one blocking read from the fallback decoder.
    Fallback(Vec<u8>),
}

/// Spec-level image of one sink write.
pub enum MixWrite {
    Ingest(Seq<u8>),
    Fallback(Seq<u8>),
}

impl View for SinkWrite {
    type V = MixWrite;

    open spec fn view(&self) -> MixWrite {
        match self {
            SinkWrite::Ingest(v) => MixWrite::Ingest(v@),
            SinkWrite::Fallback(v) => MixWrite::Fallback(v@),
        }
    }
}

/// The views of a sequence of byte vectors.
pub open spec fn vec_views(s: Seq<Vec<u8>>) -> Seq<Seq<u8>> {
    s.map_values(|v: Vec<u8>| v@)
}

/// The views of a sequence of arrival groups of chunks.
pub open spec fn group_views(s: Seq<Vec<Vec<u8>>>) -> Seq<Seq<Seq<u8>>> {
    s.map_values(|g: Vec<Vec<u8>>| vec_views(g@))
}

/// The views of the writes made to the sink.
pub open spec fn write_views(s: Seq<SinkWrite>) -> Seq<MixWrite> {
    s.map_values(|w: SinkWrite| w@)
}

/// The ingest queue at an iteration's decision point: what was queued
/// before plus whatever arrived since the last iteration.
pub open spec fn absorbed(groups: Seq<Seq<Seq<u8>>>, queue: Seq<Seq<u8>>) -> Seq<Seq<u8>> {
    if groups.len() > 0 {
        queue + groups[0]
    } else {
        queue
    }
}

/// The arrival groups still pending after an iteration took one in.
pub open spec fn remaining(groups: Seq<Seq<Seq<u8>>>) -> Seq<Seq<Seq<u8>>> {
    if groups.len() > 0 {
        groups.skip(1)
    } else {
        groups
    }
}

/// Everything the mixer writes to the sink, given the chunks that arrive
/// before each iteration (`groups`), what is already queued, and the
/// bytes each blocking fallback read would return.  Per iteration: new
/// arrivals join the queue; a queued chunk is forwarded if there is one,
/// otherwise one fallback read is forwarded; a zero-length read — or a
/// fallback schedule that is exhausted — is end-of-stream and stops the
/// loop at once.
pub open spec fn spec_mix(
    groups: Seq<Seq<Seq<u8>>>,
    queue: Seq<Seq<u8>>,
    fallback: Seq<Seq<u8>>,
) -> Seq<MixWrite>
    decreases groups.len(), queue.len(), fallback.len(),
{
    let q = absorbed(groups, queue);
    let g = remaining(groups);
    if q.len() > 0 {
        seq![MixWrite::Ingest(q[0])] + spec_mix(g, q.skip(1), fallback)
    } else if fallback.len() == 0 || fallback[0].len() == 0 {
        Seq::empty()
    } else {
        seq![MixWrite::Fallback(fallback[0])] + spec_mix(g, q, fallback.skip(1))
    }
}

/// Live data strictly preempts fallback data.  When the ingest queue is
/// non-empty at an iteration's decision point, that iteration forwards
/// exactly the head chunk, and the fallback stream is neither read nor
/// forwarded in it: the writes continue with the fallback schedule
/// untouched.
pub proof fn lemma_live_preempts_fallback(
    groups: Seq<Seq<Seq<u8>>>,
    queue: Seq<Seq<u8>>,
    fallback: Seq<Seq<u8>>,
)
    requires
        absorbed(groups, queue).len() > 0,
    ensures
        spec_mix(groups, queue, fallback) == seq![
            MixWrite::Ingest(absorbed(groups, queue)[0]),
        ] + spec_mix(remaining(groups), absorbed(groups, queue).skip(1), fallback),
        spec_mix(groups, queue, fallback)[0] == MixWrite::Ingest(absorbed(groups, queue)[0]),
{
}

/// The prefix of the fallback schedule up to (excluding) its first
/// zero-length read, tagged as fallback writes.
pub open spec fn fallback_prefix(f: Seq<Seq<u8>>) -> Seq<MixWrite>
    decreases f.len(),
{
    if f.len() == 0 || f[0].len() == 0 {
        Seq::empty()
    } else {
        seq![MixWrite::Fallback(f[0])] + fallback_prefix(f.skip(1))
    }
}

/// When no ingest chunk ever arrives, the sink receives exactly the
/// fallback reads, in order, up to the first end-of-stream read, and the
/// loop then ends normally.
pub proof fn lemma_pure_fallback(groups: Seq<Seq<Seq<u8>>>, fallback: Seq<Seq<u8>>)
    requires
        forall|k: int| 0 <= k < groups.len() ==> groups[k].len() == 0,
    ensures
        spec_mix(groups, Seq::empty(), fallback) == fallback_prefix(fallback),
    decreases groups.len(), fallback.len(),
{
    let q = absorbed(groups, Seq::empty());
    assert(q =~= Seq::<Seq<u8>>::empty());
    if fallback.len() == 0 || fallback[0].len() == 0 {
    } else {
        if groups.len() > 0 {
            lemma_pure_fallback(groups.skip(1), fallback);
            assert(spec_mix(groups, Seq::empty(), fallback) == seq![
                MixWrite::Fallback(fallback[0]),
            ] + spec_mix(groups.skip(1), q, fallback.skip(1)));
            lemma_pure_fallback(groups.skip(1), fallback.skip(1));
        } else {
            lemma_pure_fallback(groups, fallback.skip(1));
        }
    }
}

/// Decision opening one mixer iteration, taken from the non-blocking
/// probe of the ingest channel.
#[derive(PartialEq, Eq, Debug)]
pub enum MixDecision {
    /// A chunk was ready: write exactly it to the sink, in full, and do
    /// not touch the fallback stream this iteration.
    ForwardIngest(Vec<u8>),
    /// Nothing was ready: do one blocking fallback read and hand the
    /// bytes to `decide_fallback`.
    ReadFallback,
}

/// Outcome of a fallback read.
#[derive(PartialEq, Eq, Debug)]
pub enum FallbackStep {
    /// Write exactly the bytes read to the sink.
    Forward(Vec<u8>),
    /// The read was empty: the fallback stream ended, the mixer loop is
    /// over — normal completion, not a failure.
    EndOfStream,
}

/// Step one of an iteration: an immediately available ingest chunk wins
/// over whatever the fallback stream might offer.
pub fn decide_iteration(probe: Option<Vec<u8>>) -> (d: MixDecision)
    ensures
        probe matches Some(c) ==> d == MixDecision::ForwardIngest(c),
        probe is None ==> d == MixDecision::ReadFallback,
{
    match probe {
        Some(c) => MixDecision::ForwardIngest(c),
        None => MixDecision::ReadFallback,
    }
}

/// Step two, reached only when the channel was empty: forward the bytes
/// read, or recognize the end of the fallback stream.
pub fn decide_fallback(read: Vec<u8>) -> (d: FallbackStep)
    ensures
        read@.len() == 0 ==> d == FallbackStep::EndOfStream,
        read@.len() > 0 ==> d == FallbackStep::Forward(read),
{
    if read.len() == 0 {
        FallbackStep::EndOfStream
    } else {
        FallbackStep::Forward(read)
    }
}

/// Run the relay loop over a recorded schedule: `arrivals[i]` holds the
/// chunks the ingest channel delivers before iteration `i`, `fallback`
/// the bytes of each successive blocking read.  Returns every write made
/// to the sink, in order; the scenario tests drive the mixer through
/// this.
pub fn run_mixer(arrivals: Vec<Vec<Vec<u8>>>, fallback: Vec<Vec<u8>>) -> (out: Vec<SinkWrite>)
    ensures
        write_views(out@) == spec_mix(group_views(arrivals@), Seq::empty(), vec_views(fallback@)),
{
    let ghost model = spec_mix(group_views(arrivals@), Seq::empty(), vec_views(fallback@));
    let mut arr = arrivals;
    let mut fb = fallback;
    let mut queue: Vec<Vec<u8>> = Vec::new();
    let mut out: Vec<SinkWrite> = Vec::new();
    let mut done = false;
    proof {
        assert(vec_views(queue@) =~= Seq::<Seq<u8>>::empty());
        assert(write_views(out@) =~= Seq::<MixWrite>::empty());
    }
    while !done
        invariant
            !done ==> model == write_views(out@) + spec_mix(
                group_views(arr@),
                vec_views(queue@),
                vec_views(fb@),
            ),
            done ==> model == write_views(out@),
        decreases (if done { 0int } else { 1int }), arr@.len(), queue@.len(), fb@.len(),
    {
        let ghost gs = group_views(arr@);
        let ghost qs = vec_views(queue@);
        let ghost fs = vec_views(fb@);
        if arr.len() > 0 {
            let mut grp = arr.remove(0);
            let ghost grp_view = vec_views(grp@);
            queue.append(&mut grp);
            proof {
                assert(group_views(arr@) =~= remaining(gs));
                assert(gs[0] == grp_view);
                assert(vec_views(queue@) =~= qs + grp_view);
                assert(vec_views(queue@) == absorbed(gs, qs));
            }
        } else {
            proof {
                assert(vec_views(queue@) == absorbed(gs, qs));
                assert(group_views(arr@) == remaining(gs));
            }
        }
        if queue.len() > 0 {
            let ghost qmid = vec_views(queue@);
            let c = queue.remove(0);
            let ghost pre = out@;
            out.push(SinkWrite::Ingest(c));
            proof {
                assert(qmid[0] == c@);
                assert(vec_views(queue@) =~= qmid.skip(1));
                assert(write_views(out@) =~= write_views(pre) + seq![MixWrite::Ingest(c@)]);
                assert(spec_mix(gs, qs, fs) == seq![MixWrite::Ingest(qmid[0])] + spec_mix(
                    remaining(gs),
                    qmid.skip(1),
                    fs,
                ));
                assert(write_views(pre) + (seq![MixWrite::Ingest(c@)] + spec_mix(
                    remaining(gs),
                    qmid.skip(1),
                    fs,
                )) =~= (write_views(pre) + seq![MixWrite::Ingest(c@)]) + spec_mix(
                    remaining(gs),
                    qmid.skip(1),
                    fs,
                ));
            }
        } else if fb.len() > 0 {
            let r = fb.remove(0);
            proof {
                assert(fs[0] == r@);
                assert(vec_views(fb@) =~= fs.skip(1));
            }
            if r.len() == 0 {
                done = true;
                proof {
                    assert(spec_mix(gs, qs, fs) =~= Seq::<MixWrite>::empty());
                    assert(model =~= write_views(out@));
                }
            } else {
                let ghost pre = out@;
                out.push(SinkWrite::Fallback(r));
                proof {
                    assert(write_views(out@) =~= write_views(pre) + seq![
                        MixWrite::Fallback(fs[0]),
                    ]);
                    assert(spec_mix(gs, qs, fs) == seq![MixWrite::Fallback(fs[0])] + spec_mix(
                        remaining(gs),
                        vec_views(queue@),
                        fs.skip(1),
                    ));
                    assert(write_views(pre) + (seq![MixWrite::Fallback(fs[0])] + spec_mix(
                        remaining(gs),
                        vec_views(queue@),
                        fs.skip(1),
                    )) =~= (write_views(pre) + seq![MixWrite::Fallback(fs[0])]) + spec_mix(
                        remaining(gs),
                        vec_views(queue@),
                        fs.skip(1),
                    ));
                }
            }
        } else {
            done = true;
            proof {
                assert(spec_mix(gs, qs, fs) =~= Seq::<MixWrite>::empty());
                assert(model =~= write_views(out@));
            }
        }
    }
    out
}

} // verus!
