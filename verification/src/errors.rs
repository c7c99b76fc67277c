use vstd::prelude::*;
use vstd::string::StringExecFns;

use crate::numfmt::{dec_digits, int_digits, i64_to_dec, u64_to_dec};

verus! {

/// Every way a recording operation can fail.
///
/// Each failure is returned synchronously to the caller of the failing
/// operation; nothing is retried and nothing is queued. `FrameSizeMismatch`
/// and `PipeWriteError` leave the session installed; the other session
/// errors describe a slot that was never filled or has just been cleared.
#[derive(Clone, Copy, Debug, PartialEq, Eq, Structural)]
pub enum RecorderError {
    /// A session already occupies the single slot; `start` was refused.
    AlreadyActive,
    /// No session occupies the slot; `send` or `stop` has nothing to act on.
    NoActiveSession,
    /// The transcoder binary could not be located or obtained.
    BinaryUnavailable,
    /// The operating system could not create the transcoder process.
    SpawnFailed,
    /// The input pipe handle could not be obtained after the spawn.
    PipeUnavailable,
    /// A frame buffer's length differed from width * height * 4.
    FrameSizeMismatch { got: usize, expected: usize },
    /// Writing a frame to the transcoder's input pipe failed.
    PipeWriteError,
    /// The operating system could not report the process's completion.
    WaitError,
    /// The transcoder exited with a non-success status.
    EncodingFailed { exit_code: Option<i32> },
}

/// The human-readable text of each error, as surfaced to the caller.
pub open spec fn spec_message(e: RecorderError) -> Seq<char> {
    match e {
        RecorderError::AlreadyActive => "FFmpeg session already active"@,
        RecorderError::NoActiveSession => "No active FFmpeg session"@,
        RecorderError::BinaryUnavailable => "FFmpeg binary unavailable"@,
        RecorderError::SpawnFailed => "Failed to spawn FFmpeg"@,
        RecorderError::PipeUnavailable => "Failed to get FFmpeg stdin"@,
        RecorderError::FrameSizeMismatch { got, expected } => "Frame size mismatch: got "@
            + dec_digits(got as nat) + " bytes, expected "@ + dec_digits(expected as nat),
        RecorderError::PipeWriteError => "FFmpeg stdin write error"@,
        RecorderError::WaitError => "FFmpeg wait error"@,
        RecorderError::EncodingFailed { exit_code } => match exit_code {
            Some(code) => "FFmpeg exited with code "@ + int_digits(code as int),
            None => "FFmpeg exited with an unknown code"@,
        },
    }
}

impl RecorderError {
    /// Renders this error as the text the caller displays or logs.
    pub fn message(&self) -> (r: String)
        ensures
            r@ == spec_message(*self),
    {
        match self {
            RecorderError::AlreadyActive => String::from_str("FFmpeg session already active"),
            RecorderError::NoActiveSession => String::from_str("No active FFmpeg session"),
            RecorderError::BinaryUnavailable => String::from_str("FFmpeg binary unavailable"),
            RecorderError::SpawnFailed => String::from_str("Failed to spawn FFmpeg"),
            RecorderError::PipeUnavailable => String::from_str("Failed to get FFmpeg stdin"),
            RecorderError::FrameSizeMismatch { got, expected } => {
                let head = String::from_str("Frame size mismatch: got ");
                head.concat(u64_to_dec(*got as u64).as_str()).concat(
                    " bytes, expected ",
                ).concat(u64_to_dec(*expected as u64).as_str())
            },
            RecorderError::PipeWriteError => String::from_str("FFmpeg stdin write error"),
            RecorderError::WaitError => String::from_str("FFmpeg wait error"),
            RecorderError::EncodingFailed { exit_code } => {
                match exit_code {
                    Some(code) => {
                        let head = String::from_str("FFmpeg exited with code ");
                        head.concat(i64_to_dec(*code as i64).as_str())
                    },
                    None => String::from_str("FFmpeg exited with an unknown code"),
                }
            },
        }
    }
}

}
