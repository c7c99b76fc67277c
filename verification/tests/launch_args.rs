use frame_recorder::args::{build_launch_args, codec_args, size_string};
use frame_recorder::codec::{parse_codec, str_eq, Codec};
use frame_recorder::numfmt::{i64_to_dec, u64_to_dec};

#[test]
fn decimal_rendering_is_exact() {
    assert_eq!(u64_to_dec(0), "0");
    assert_eq!(u64_to_dec(7), "7");
    assert_eq!(u64_to_dec(30), "30");
    assert_eq!(u64_to_dec(64), "64");
    assert_eq!(u64_to_dec(16384), "16384");
    assert_eq!(u64_to_dec(1080), "1080");
    assert_eq!(u64_to_dec(u64::MAX), "18446744073709551615");
}

#[test]
fn signed_decimal_rendering_is_exact() {
    assert_eq!(i64_to_dec(0), "0");
    assert_eq!(i64_to_dec(137), "137");
    assert_eq!(i64_to_dec(-1), "-1");
    assert_eq!(i64_to_dec(-255), "-255");
    assert_eq!(i64_to_dec(i64::MIN), "-9223372036854775808");
}

#[test]
fn geometry_argument_is_width_x_height() {
    assert_eq!(size_string(64, 64), "64x64");
    assert_eq!(size_string(1920, 1080), "1920x1080");
    assert_eq!(size_string(1, 1), "1x1");
}

#[test]
fn string_equality_is_exact() {
    assert!(str_eq("prores", "prores"));
    assert!(!str_eq("prores", "prores "));
    assert!(!str_eq("", "a"));
    assert!(str_eq("", ""));
}

#[test]
fn selectors_parse_with_permissive_fallback() {
    assert_eq!(parse_codec("prores"), Codec::Prores);
    assert_eq!(parse_codec("ffv1"), Codec::Ffv1);
    assert_eq!(parse_codec("h264"), Codec::H264);
    assert_eq!(parse_codec("unknownvalue"), Codec::H264);
    assert_eq!(parse_codec(""), Codec::H264);
    assert_eq!(parse_codec("PRORES"), Codec::H264);
}

#[test]
fn h264_profile_arguments() {
    let args = codec_args(Codec::H264);
    let expected = vec!["-c:v", "libx264", "-preset", "slow", "-crf", "18", "-pix_fmt", "yuv420p"];
    assert_eq!(args, expected);
}

#[test]
fn prores_profile_arguments() {
    let args = codec_args(Codec::Prores);
    let expected = vec![
        "-c:v",
        "prores_ks",
        "-profile:v",
        "3",
        "-vendor",
        "apl0",
        "-pix_fmt",
        "yuv422p10le",
    ];
    assert_eq!(args, expected);
}

#[test]
fn ffv1_profile_arguments() {
    let args = codec_args(Codec::Ffv1);
    let expected = vec![
        "-c:v", "ffv1", "-level", "3", "-coder", "1", "-context", "1", "-pix_fmt", "yuv420p",
    ];
    assert_eq!(args, expected);
}

#[test]
fn full_launch_arguments_for_h264() {
    let args = build_launch_args("out.mp4", 64, 64, 30, Codec::H264);
    let expected = vec![
        "-y",
        "-f",
        "rawvideo",
        "-vcodec",
        "rawvideo",
        "-pix_fmt",
        "rgba",
        "-s",
        "64x64",
        "-r",
        "30",
        "-i",
        "pipe:0",
        "-c:v",
        "libx264",
        "-preset",
        "slow",
        "-crf",
        "18",
        "-pix_fmt",
        "yuv420p",
        "-movflags",
        "+faststart",
        "out.mp4",
    ];
    assert_eq!(args, expected);
}

#[test]
fn full_launch_arguments_for_ffv1() {
    let args = build_launch_args("archive.mkv", 1920, 1080, 25, Codec::Ffv1);
    let expected = vec![
        "-y",
        "-f",
        "rawvideo",
        "-vcodec",
        "rawvideo",
        "-pix_fmt",
        "rgba",
        "-s",
        "1920x1080",
        "-r",
        "25",
        "-i",
        "pipe:0",
        "-c:v",
        "ffv1",
        "-level",
        "3",
        "-coder",
        "1",
        "-context",
        "1",
        "-pix_fmt",
        "yuv420p",
        "-movflags",
        "+faststart",
        "archive.mkv",
    ];
    assert_eq!(args, expected);
}
