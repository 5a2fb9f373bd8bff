//! The argument sets of the three managed processes.
//!
//! The listener and the fallback decoder must be given the same output
//! filter/encoding parameter set, so their data streams are
//! bit-compatible for the sink; the contracts below pin every argument
//! and make the shared tail a single definition, stated once and proved
//! of both.

use vstd::prelude::*;

verus! {

/// The views of an argument list.
pub open spec fn arg_views(v: Seq<String>) -> Seq<Seq<char>> {
    v.map_values(|s: String| s@)
}

/// The encoding parameter set shared by the listener and the decoder.
pub open spec fn encoder_params_spec() -> Seq<Seq<char>> {
    seq![
        "-pix_fmt"@,
        "yuv420p"@,
        "-c:v"@,
        "mpeg2video"@,
        "-g"@,
        "1"@,
        "-b:v"@,
        "50000k"@,
        "-minrate"@,
        "50000k"@,
        "-maxrate"@,
        "50000k"@,
        "-bufsize"@,
        "25000k"@,
        "-c:a"@,
        "s302m"@,
        "-strict"@,
        "-2"@,
        "-ar"@,
        "48000"@,
        "-ac"@,
        "2"@,
        "-f"@,
        "mpegts"@,
        "-"@,
    ]
}

/// What stands before the shared parameter set in the listener's
/// arguments: quiet error-level diagnostics, the listen transport and
/// address, and the output filter/mapping.
pub open spec fn listener_prefix_spec() -> Seq<Seq<char>> {
    seq![
        "-hide_banner"@,
        "-nostats"@,
        "-v"@,
        "level+error"@,
        "-f"@,
        "live_flv"@,
        "-listen"@,
        "1"@,
        "-i"@,
        "rtmp://localhost:1936/live/stream"@,
        "-filter_complex"@,
        "[0:v]fps=25,scale=1024:576,setdar=dar=1.778[vout1]"@,
        "-map"@,
        "[vout1]"@,
        "-map"@,
        "0:a"@,
    ]
}

/// What stands before the shared parameter set in the decoder's
/// arguments: the synthetic test video and noise sources.
pub open spec fn decoder_prefix_spec() -> Seq<Seq<char>> {
    seq![
        "-v"@,
        "level+error"@,
        "-hide_banner"@,
        "-nostats"@,
        "-f"@,
        "lavfi"@,
        "-i"@,
        "testsrc=duration=20:size=1024x576:rate=25"@,
        "-f"@,
        "lavfi"@,
        "-i"@,
        "anoisesrc=d=20:c=pink:r=48000:a=0.5"@,
    ]
}

/// The sink's arguments: read the mixed stream from standard input.
pub open spec fn sink_args_spec() -> Seq<Seq<char>> {
    seq!["-v"@, "level+error"@, "-hide_banner"@, "-nostats"@, "-i"@, "pipe:0"@]
}

/// The shared encoding parameter set, appended to `args`.
fn push_encoder_params(args: &mut Vec<String>)
    ensures
        arg_views(final(args)@) == arg_views(old(args)@) + encoder_params_spec(),
{
    let ghost pre = args@;
    args.push("-pix_fmt".to_owned());
    args.push("yuv420p".to_owned());
    args.push("-c:v".to_owned());
    args.push("mpeg2video".to_owned());
    args.push("-g".to_owned());
    args.push("1".to_owned());
    args.push("-b:v".to_owned());
    args.push("50000k".to_owned());
    args.push("-minrate".to_owned());
    args.push("50000k".to_owned());
    args.push("-maxrate".to_owned());
    args.push("50000k".to_owned());
    args.push("-bufsize".to_owned());
    args.push("25000k".to_owned());
    args.push("-c:a".to_owned());
    args.push("s302m".to_owned());
    args.push("-strict".to_owned());
    args.push("-2".to_owned());
    args.push("-ar".to_owned());
    args.push("48000".to_owned());
    args.push("-ac".to_owned());
    args.push("2".to_owned());
    args.push("-f".to_owned());
    args.push("mpegts".to_owned());
    args.push("-".to_owned());
    proof {
        assert(arg_views(args@) =~= arg_views(pre) + encoder_params_spec());
    }
}

/// The ingest listener's full argument list: its own prefix, then
/// exactly the shared encoding parameter set.
pub fn listener_args() -> (r: Vec<String>)
    ensures
        arg_views(r@) == listener_prefix_spec() + encoder_params_spec(),
{
    let mut args: Vec<String> = Vec::new();
    args.push("-hide_banner".to_owned());
    args.push("-nostats".to_owned());
    args.push("-v".to_owned());
    args.push("level+error".to_owned());
    args.push("-f".to_owned());
    args.push("live_flv".to_owned());
    args.push("-listen".to_owned());
    args.push("1".to_owned());
    args.push("-i".to_owned());
    args.push("rtmp://localhost:1936/live/stream".to_owned());
    args.push("-filter_complex".to_owned());
    args.push("[0:v]fps=25,scale=1024:576,setdar=dar=1.778[vout1]".to_owned());
    args.push("-map".to_owned());
    args.push("[vout1]".to_owned());
    args.push("-map".to_owned());
    args.push("0:a".to_owned());
    proof {
        assert(arg_views(args@) =~= listener_prefix_spec());
    }
    push_encoder_params(&mut args);
    args
}

/// The fallback decoder's full argument list: its own prefix, then
/// exactly the shared encoding parameter set.
pub fn decoder_args() -> (r: Vec<String>)
    ensures
        arg_views(r@) == decoder_prefix_spec() + encoder_params_spec(),
{
    let mut args: Vec<String> = Vec::new();
    args.push("-v".to_owned());
    args.push("level+error".to_owned());
    args.push("-hide_banner".to_owned());
    args.push("-nostats".to_owned());
    args.push("-f".to_owned());
    args.push("lavfi".to_owned());
    args.push("-i".to_owned());
    args.push("testsrc=duration=20:size=1024x576:rate=25".to_owned());
    args.push("-f".to_owned());
    args.push("lavfi".to_owned());
    args.push("-i".to_owned());
    args.push("anoisesrc=d=20:c=pink:r=48000:a=0.5".to_owned());
    proof {
        assert(arg_views(args@) =~= decoder_prefix_spec());
    }
    push_encoder_params(&mut args);
    args
}

/// The sink's full argument list.
pub fn sink_args() -> (r: Vec<String>)
    ensures
        arg_views(r@) == sink_args_spec(),
{
    let mut args: Vec<String> = Vec::new();
    args.push("-v".to_owned());
    args.push("level+error".to_owned());
    args.push("-hide_banner".to_owned());
    args.push("-nostats".to_owned());
    args.push("-i".to_owned());
    args.push("pipe:0".to_owned());
    proof {
        assert(arg_views(args@) =~= sink_args_spec());
    }
    args
}

/// `a` ends with `tail`.
pub open spec fn ends_with(a: Seq<Seq<char>>, tail: Seq<Seq<char>>) -> bool {
    tail.len() <= a.len() && a.skip(a.len() - tail.len()) == tail
}

/// The listener's and the decoder's argument lists end in the same
/// encoding parameter set: their data-stream output is produced under
/// identical output parameters, as the sink requires.
pub proof fn lemma_bit_compatible_tails()
    ensures
        ends_with(listener_prefix_spec() + encoder_params_spec(), encoder_params_spec()),
        ends_with(decoder_prefix_spec() + encoder_params_spec(), encoder_params_spec()),
{
    assert((listener_prefix_spec() + encoder_params_spec()).skip(
        listener_prefix_spec().len() as int,
    ) =~= encoder_params_spec());
    assert((decoder_prefix_spec() + encoder_params_spec()).skip(
        decoder_prefix_spec().len() as int,
    ) =~= encoder_params_spec());
}

} // verus!
