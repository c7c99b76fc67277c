use frame_recorder::errors::RecorderError;

#[test]
fn plain_errors_render_their_text() {
    assert_eq!(RecorderError::AlreadyActive.message(), "FFmpeg session already active");
    assert_eq!(RecorderError::NoActiveSession.message(), "No active FFmpeg session");
    assert_eq!(RecorderError::BinaryUnavailable.message(), "FFmpeg binary unavailable");
    assert_eq!(RecorderError::SpawnFailed.message(), "Failed to spawn FFmpeg");
    assert_eq!(RecorderError::PipeUnavailable.message(), "Failed to get FFmpeg stdin");
    assert_eq!(RecorderError::PipeWriteError.message(), "FFmpeg stdin write error");
    assert_eq!(RecorderError::WaitError.message(), "FFmpeg wait error");
}

#[test]
fn mismatch_text_carries_both_lengths() {
    let e = RecorderError::FrameSizeMismatch { got: 100, expected: 16384 };
    assert_eq!(e.message(), "Frame size mismatch: got 100 bytes, expected 16384");
}

#[test]
fn exit_text_carries_the_code() {
    let with_code = RecorderError::EncodingFailed { exit_code: Some(1) };
    assert_eq!(with_code.message(), "FFmpeg exited with code 1");
    let negative = RecorderError::EncodingFailed { exit_code: Some(-11) };
    assert_eq!(negative.message(), "FFmpeg exited with code -11");
    let unknown = RecorderError::EncodingFailed { exit_code: None };
    assert_eq!(unknown.message(), "FFmpeg exited with an unknown code");
}
