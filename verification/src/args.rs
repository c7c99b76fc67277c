use vstd::prelude::*;
use vstd::string::StringExecFns;

use crate::codec::Codec;
use crate::numfmt::{dec_digits, u64_to_dec};

verus! {

/// The views of a vector of argument strings.
pub open spec fn arg_views(args: Seq<String>) -> Seq<Seq<char>> {
    args.map_values(|s: String| s@)
}

/// The views of a concatenation are the concatenation of the views.
pub proof fn lemma_arg_views_add(s1: Seq<String>, s2: Seq<String>)
    ensures
        arg_views(s1 + s2) =~= arg_views(s1) + arg_views(s2),
{
}

/// The encoder-specific arguments of each codec profile: codec id, quality
/// or lossless-coding parameters, and pixel format.
pub open spec fn spec_codec_args(c: Codec) -> Seq<Seq<char>> {
    match c {
        Codec::H264 => seq![
            "-c:v"@,
            "libx264"@,
            "-preset"@,
            "slow"@,
            "-crf"@,
            "18"@,
            "-pix_fmt"@,
            "yuv420p"@,
        ],
        Codec::Prores => seq![
            "-c:v"@,
            "prores_ks"@,
            "-profile:v"@,
            "3"@,
            "-vendor"@,
            "apl0"@,
            "-pix_fmt"@,
            "yuv422p10le"@,
        ],
        Codec::Ffv1 => seq![
            "-c:v"@,
            "ffv1"@,
            "-level"@,
            "3"@,
            "-coder"@,
            "1"@,
            "-context"@,
            "1"@,
            "-pix_fmt"@,
            "yuv420p"@,
        ],
    }
}

/// The geometry argument: decimal width, an 'x', decimal height.
pub open spec fn size_chars(width: nat, height: nat) -> Seq<char> {
    dec_digits(width) + seq!['x'] + dec_digits(height)
}

/// The input-side arguments: overwrite the output file, and read raw
/// interleaved 4-byte pixels of the given geometry and rate from the
/// process's standard input.
pub open spec fn spec_input_args(width: nat, height: nat, fps: nat) -> Seq<Seq<char>> {
    seq![
        "-y"@,
        "-f"@,
        "rawvideo"@,
        "-vcodec"@,
        "rawvideo"@,
        "-pix_fmt"@,
        "rgba"@,
        "-s"@,
        size_chars(width, height),
        "-r"@,
        dec_digits(fps),
        "-i"@,
        "pipe:0"@,
    ]
}

/// The output-side arguments: streaming-friendly metadata placement, then
/// the destination path as the positional argument.
pub open spec fn spec_output_args(path: Seq<char>) -> Seq<Seq<char>> {
    seq!["-movflags"@, "+faststart"@, path]
}

/// The whole invocation that launches the transcoder for one session.
pub open spec fn spec_launch_args(
    path: Seq<char>,
    width: nat,
    height: nat,
    fps: nat,
    c: Codec,
) -> Seq<Seq<char>> {
    spec_input_args(width, height, fps) + spec_codec_args(c) + spec_output_args(path)
}

/// Builds the encoder-specific argument vector of one codec profile.
pub fn codec_args(c: Codec) -> (r: Vec<String>)
    ensures
        arg_views(r@) == spec_codec_args(c),
{
    let mut v: Vec<String> = Vec::new();
    match c {
        Codec::H264 => {
            v.push(String::from_str("-c:v"));
            v.push(String::from_str("libx264"));
            v.push(String::from_str("-preset"));
            v.push(String::from_str("slow"));
            v.push(String::from_str("-crf"));
            v.push(String::from_str("18"));
            v.push(String::from_str("-pix_fmt"));
            v.push(String::from_str("yuv420p"));
        },
        Codec::Prores => {
            v.push(String::from_str("-c:v"));
            v.push(String::from_str("prores_ks"));
            v.push(String::from_str("-profile:v"));
            v.push(String::from_str("3"));
            v.push(String::from_str("-vendor"));
            v.push(String::from_str("apl0"));
            v.push(String::from_str("-pix_fmt"));
            v.push(String::from_str("yuv422p10le"));
        },
        Codec::Ffv1 => {
            v.push(String::from_str("-c:v"));
            v.push(String::from_str("ffv1"));
            v.push(String::from_str("-level"));
            v.push(String::from_str("3"));
            v.push(String::from_str("-coder"));
            v.push(String::from_str("1"));
            v.push(String::from_str("-context"));
            v.push(String::from_str("1"));
            v.push(String::from_str("-pix_fmt"));
            v.push(String::from_str("yuv420p"));
        },
    }
    proof {
        assert(arg_views(v@) =~~= spec_codec_args(c));
    }
    v
}

/// Renders the geometry argument, e.g. `640x480`.
pub fn size_string(width: u32, height: u32) -> (r: String)
    ensures
        r@ == size_chars(width as nat, height as nat),
{
    let w = u64_to_dec(width as u64);
    let h = u64_to_dec(height as u64);
    proof {
        reveal_strlit("x");
        assert("x"@ =~= seq!['x']);
    }
    w.concat("x").concat(h.as_str())
}

/// Builds the full argument vector that launches the transcoder for one
/// recording session.
pub fn build_launch_args(
    output_path: &str,
    width: u32,
    height: u32,
    fps: u32,
    c: Codec,
) -> (r: Vec<String>)
    ensures
        arg_views(r@) == spec_launch_args(
            output_path@,
            width as nat,
            height as nat,
            fps as nat,
            c,
        ),
{
    let mut v: Vec<String> = Vec::new();
    v.push(String::from_str("-y"));
    v.push(String::from_str("-f"));
    v.push(String::from_str("rawvideo"));
    v.push(String::from_str("-vcodec"));
    v.push(String::from_str("rawvideo"));
    v.push(String::from_str("-pix_fmt"));
    v.push(String::from_str("rgba"));
    v.push(String::from_str("-s"));
    v.push(size_string(width, height));
    v.push(String::from_str("-r"));
    v.push(u64_to_dec(fps as u64));
    v.push(String::from_str("-i"));
    v.push(String::from_str("pipe:0"));
    let ghost head = v@;
    proof {
        assert(arg_views(head) =~~= spec_input_args(width as nat, height as nat, fps as nat));
    }
    let mut profile = codec_args(c);
    let ghost prof = profile@;
    v.append(&mut profile);
    let ghost mid = v@;
    v.push(String::from_str("-movflags"));
    v.push(String::from_str("+faststart"));
    v.push(String::from_str(output_path));
    let ghost tail = seq![
        v@[mid.len() as int],
        v@[mid.len() as int + 1],
        v@[mid.len() as int + 2],
    ];
    proof {
        assert(v@ =~= (head + prof) + tail);
        assert(arg_views(tail) =~~= spec_output_args(output_path@));
        lemma_arg_views_add(head + prof, tail);
        lemma_arg_views_add(head, prof);
        assert(arg_views(v@) =~= spec_launch_args(
            output_path@,
            width as nat,
            height as nat,
            fps as nat,
            c,
        ));
    }
    v
}

}
