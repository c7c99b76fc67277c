use vstd::prelude::*;

use crate::args::{arg_views, build_launch_args, spec_launch_args};
use crate::codec::{codec_of, parse_codec, Codec};
use crate::errors::RecorderError;

verus! {

/// The abstract state of one active session: the geometry fixed at start
/// and how many frames the transcoder has accepted so far.
pub struct SessionModel {
    pub width: nat,
    pub height: nat,
    pub frames_sent: nat,
}

/// A session's geometry is strictly positive and its frame size, computed
/// as width * height * 4, fits 32-bit arithmetic.
pub open spec fn model_wf(m: SessionModel) -> bool {
    &&& m.width > 0
    &&& m.height > 0
    &&& m.width * m.height * 4 <= u32::MAX
}

/// The byte length every frame of this session must have.
pub open spec fn frame_bytes(m: SessionModel) -> nat {
    m.width * m.height * 4
}

/// What the driver observed when it tried to launch the transcoder.
#[derive(Clone, Copy, Debug, PartialEq, Eq, Structural)]
pub enum SpawnOutcome {
    /// The process is running and its input pipe was captured.
    Launched,
    /// The transcoder binary could not be located or obtained.
    BinaryMissing,
    /// The operating system refused to create the process.
    SpawnError,
    /// The process was created but its input pipe could not be taken.
    PipeMissing,
}

/// What the driver observed when it waited for the transcoder to exit.
#[derive(Clone, Copy, Debug, PartialEq, Eq, Structural)]
pub enum WaitOutcome {
    /// The operating system could not report the process's completion.
    WaitFailed,
    /// The process exited with or without a reportable code; `success` is
    /// whether the status counts as success on the host system.
    Exited { success: bool, exit_code: Option<i32> },
}

/// Whether a `start` may proceed: only from the idle state.
pub open spec fn spec_begin_start(state: Option<SessionModel>) -> Result<(), RecorderError> {
    match state {
        Some(_) => Err(RecorderError::AlreadyActive),
        None => Ok(()),
    }
}

/// The state and result after the driver reports the spawn outcome: a
/// launched process installs a fresh session; every failure leaves the
/// slot idle and names its stage.
pub open spec fn spec_finish_start(
    width: nat,
    height: nat,
    outcome: SpawnOutcome,
) -> (Option<SessionModel>, Result<(), RecorderError>) {
    match outcome {
        SpawnOutcome::Launched => (
            Some(SessionModel { width, height, frames_sent: 0 }),
            Ok(()),
        ),
        SpawnOutcome::BinaryMissing => (None, Err(RecorderError::BinaryUnavailable)),
        SpawnOutcome::SpawnError => (None, Err(RecorderError::SpawnFailed)),
        SpawnOutcome::PipeMissing => (None, Err(RecorderError::PipeUnavailable)),
    }
}

/// Whether a frame of `len` bytes may be written: there must be an active
/// session and the length must be exactly its frame size. The check comes
/// before any write, so a refused frame never desynchronizes the pipe.
pub open spec fn spec_check_frame(state: Option<SessionModel>, len: nat) -> Result<
    (),
    RecorderError,
> {
    match state {
        None => Err(RecorderError::NoActiveSession),
        Some(m) => if len == frame_bytes(m) {
            Ok(())
        } else {
            Err(RecorderError::FrameSizeMismatch {
                got: len as usize,
                expected: frame_bytes(m) as usize,
            })
        },
    }
}

/// The state and result after the driver reports a frame write: a
/// successful write advances the frame count by exactly one; a failed one
/// changes nothing. Either way the session stays installed, so the caller
/// may send another frame or stop.
pub open spec fn spec_record_write(state: Option<SessionModel>, write_ok: bool) -> (
    Option<SessionModel>,
    Result<(), RecorderError>,
) {
    match state {
        None => (None, Err(RecorderError::NoActiveSession)),
        Some(m) => if write_ok {
            (
                Some(SessionModel { frames_sent: m.frames_sent + 1, ..m }),
                Ok(()),
            )
        } else {
            (Some(m), Err(RecorderError::PipeWriteError))
        },
    }
}

/// The state and result of removing the session for teardown: the slot is
/// freed whether or not a session was there; only an idle slot reports
/// `NoActiveSession`.
pub open spec fn spec_begin_stop(state: Option<SessionModel>) -> (
    Option<SessionModel>,
    Result<(), RecorderError>,
) {
    match state {
        None => (None, Err(RecorderError::NoActiveSession)),
        Some(_) => (None, Ok(())),
    }
}

/// The result of the wait the driver performed after closing the pipe: a
/// clean exit is success, a non-success status is `EncodingFailed` with the
/// exit code, and an unobservable completion is `WaitError`.
pub open spec fn spec_finish_stop(outcome: WaitOutcome) -> Result<(), RecorderError> {
    match outcome {
        WaitOutcome::WaitFailed => Err(RecorderError::WaitError),
        WaitOutcome::Exited { success, exit_code } => if success {
            Ok(())
        } else {
            Err(RecorderError::EncodingFailed { exit_code })
        },
    }
}

/// The controller's record of the active session. The process and pipe
/// handles live with the driver that spawned the process.
struct SessionInfo {
    width: u32,
    height: u32,
}

/// The single slot that holds at most one active session. All decisions of
/// the controller are made against this state; the driver serializes the
/// operations (one lock around each whole operation) and performs the
/// process work between the two halves of `start`, `send` and `stop`.
pub struct SessionStore {
    active: Option<SessionInfo>,
    frames: Ghost<nat>,
}

impl View for SessionStore {
    type V = Option<SessionModel>;

    closed spec fn view(&self) -> Option<SessionModel> {
        match self.active {
            Some(info) => Some(
                SessionModel {
                    width: info.width as nat,
                    height: info.height as nat,
                    frames_sent: self.frames@,
                },
            ),
            None => None,
        }
    }
}

impl SessionStore {
    /// Whether the stored session, if any, is well formed.
    pub open spec fn wf(&self) -> bool {
        self@ matches Some(m) ==> model_wf(m)
    }

    /// A store with no active session.
    pub fn new() -> (s: Self)
        ensures
            s@ is None,
            s.wf(),
    {
        SessionStore { active: None, frames: Ghost(0) }
    }

    /// The first half of `start`: refuses with `AlreadyActive` while a
    /// session is installed; otherwise hands the driver the argument vector
    /// that launches the transcoder for the requested path, geometry, rate
    /// and codec selector (an unrecognized selector falls back to `h264`).
    /// The state does not change; the session is installed only by
    /// `finish_start`, once the driver reports a successful spawn.
    pub fn begin_start(
        &self,
        output_path: &str,
        width: u32,
        height: u32,
        fps: u32,
        codec: &str,
    ) -> (r: Result<Vec<String>, RecorderError>)
        requires
            width > 0,
            height > 0,
            fps > 0,
            width * height * 4 <= u32::MAX,
        ensures
            (match r {
                Ok(_) => Ok(()),
                Err(e) => Err(e),
            }) == spec_begin_start(self@),
            r matches Ok(args) ==> arg_views(args@) == spec_launch_args(
                output_path@,
                width as nat,
                height as nat,
                fps as nat,
                codec_of(codec@),
            ),
    {
        if self.active.is_some() {
            return Err(RecorderError::AlreadyActive);
        }
        let c = parse_codec(codec);
        Ok(build_launch_args(output_path, width, height, fps, c))
    }

    /// The second half of `start`: records the outcome the driver reports.
    /// A launched process installs a fresh session with the fixed geometry
    /// and no frames sent; every failure leaves the slot idle and is named
    /// `BinaryUnavailable`, `SpawnFailed` or `PipeUnavailable` after the
    /// stage that failed.
    pub fn finish_start(&mut self, width: u32, height: u32, outcome: SpawnOutcome) -> (r: Result<
        (),
        RecorderError,
    >)
        requires
            old(self)@ is None,
            width > 0,
            height > 0,
            width * height * 4 <= u32::MAX,
        ensures
            (final(self)@, r) == spec_finish_start(width as nat, height as nat, outcome),
            final(self).wf(),
    {
        match outcome {
            SpawnOutcome::Launched => {
                self.active = Some(SessionInfo { width, height });
                self.frames = Ghost(0);
                Ok(())
            },
            SpawnOutcome::BinaryMissing => Err(RecorderError::BinaryUnavailable),
            SpawnOutcome::SpawnError => Err(RecorderError::SpawnFailed),
            SpawnOutcome::PipeMissing => Err(RecorderError::PipeUnavailable),
        }
    }

    /// The first half of `send`: refuses with `NoActiveSession` while the
    /// slot is idle, and with `FrameSizeMismatch` (reporting the offending
    /// and the required length) when the buffer's length is not exactly
    /// width * height * 4. Only on `Ok` may the driver write the buffer to
    /// the pipe. The state never changes here.
    pub fn check_frame(&self, frame_len: usize) -> (r: Result<(), RecorderError>)
        requires
            self.wf(),
        ensures
            r == spec_check_frame(self@, frame_len as nat),
    {
        match &self.active {
            None => Err(RecorderError::NoActiveSession),
            Some(info) => {
                let expected = (info.width * info.height * 4) as usize;
                if frame_len == expected {
                    Ok(())
                } else {
                    Err(RecorderError::FrameSizeMismatch { got: frame_len, expected })
                }
            },
        }
    }

    /// The second half of `send`: records whether the driver's write of the
    /// whole buffer succeeded. Success advances the session's frame count
    /// by exactly one; failure reports `PipeWriteError` and changes
    /// nothing. Either way the session stays installed.
    pub fn record_write(&mut self, write_ok: bool) -> (r: Result<(), RecorderError>)
        requires
            old(self)@ is Some,
        ensures
            (final(self)@, r) == spec_record_write(old(self)@, write_ok),
            old(self).wf() ==> final(self).wf(),
    {
        if write_ok {
            self.frames = Ghost(self.frames@ + 1);
            Ok(())
        } else {
            Err(RecorderError::PipeWriteError)
        }
    }

    /// The first half of `stop`: removes the session from the slot, so no
    /// later operation can observe it mid-teardown. Refuses with
    /// `NoActiveSession` when the slot is already idle. The slot is idle
    /// afterwards in every case; the driver then closes the pipe (the
    /// end-of-stream signal to the transcoder) and waits for exit.
    pub fn begin_stop(&mut self) -> (r: Result<(), RecorderError>)
        ensures
            (final(self)@, r) == spec_begin_stop(old(self)@),
            final(self)@ is None,
            final(self).wf(),
    {
        match self.active.take() {
            None => Err(RecorderError::NoActiveSession),
            Some(_) => Ok(()),
        }
    }

    /// The second half of `stop`: translates the wait outcome the driver
    /// reports. A clean exit is success; a non-success status is
    /// `EncodingFailed` with the exit code; an unobservable completion is
    /// `WaitError`.
    pub fn finish_stop(outcome: WaitOutcome) -> (r: Result<(), RecorderError>)
        ensures
            r == spec_finish_stop(outcome),
    {
        match outcome {
            WaitOutcome::WaitFailed => Err(RecorderError::WaitError),
            WaitOutcome::Exited { success, exit_code } => {
                if success {
                    Ok(())
                } else {
                    Err(RecorderError::EncodingFailed { exit_code })
                }
            },
        }
    }
}

/// For every codec and geometry, `start` from the idle state is allowed,
/// a successful launch installs a session, and an immediate `stop` frees
/// the slot and reports success: the start/stop cycle always returns the
/// store to idle. (Whether the transcoder itself exits cleanly is the
/// process's own affair; `spec_finish_stop` maps every exit outcome to a
/// result, so no outcome leaves the store stuck.)
pub proof fn lemma_start_then_stop(c: Codec, width: nat, height: nat)
    ensures
        spec_begin_start(None) is Ok,
        ({
            let (installed, started) = spec_finish_start(width, height, SpawnOutcome::Launched);
            let (cleared, stopped) = spec_begin_stop(installed);
            &&& started is Ok
            &&& installed is Some
            &&& stopped is Ok
            &&& cleared is None
        }),
{
}

/// A second `start` with no intervening `stop` is refused with
/// `AlreadyActive`, whatever session is installed; `begin_start` takes the
/// store immutably, so the refused call leaves the first session exactly
/// as it was.
pub proof fn lemma_second_start_rejected(m: SessionModel)
    ensures
        spec_begin_start(Some(m)) == Err::<(), RecorderError>(RecorderError::AlreadyActive),
{
}

/// A `send` before any `start` is refused with `NoActiveSession`, whatever
/// the buffer's length.
pub proof fn lemma_send_before_start(len: nat)
    ensures
        spec_check_frame(None, len) == Err::<(), RecorderError>(RecorderError::NoActiveSession),
{
}

/// A buffer whose length is not width * height * 4 is refused with
/// `FrameSizeMismatch` reporting the offending and the required length,
/// and a correctly sized frame is still accepted afterwards: the refusal
/// does not disturb the session.
pub proof fn lemma_mismatch_keeps_session(m: SessionModel, len: nat)
    requires
        model_wf(m),
        len <= usize::MAX,
        len != frame_bytes(m),
    ensures
        spec_check_frame(Some(m), len) == Err::<(), RecorderError>(
            RecorderError::FrameSizeMismatch {
                got: len as usize,
                expected: frame_bytes(m) as usize,
            },
        ),
        spec_check_frame(Some(m), frame_bytes(m)) is Ok,
{
}

/// A successful write advances the session's frame count by exactly one
/// and keeps the geometry; a failed write reports `PipeWriteError` and
/// leaves the session exactly as it was.
pub proof fn lemma_write_advances_count(m: SessionModel)
    ensures
        spec_record_write(Some(m), true) == (
            Some(SessionModel { frames_sent: m.frames_sent + 1, ..m }),
            Ok::<(), RecorderError>(()),
        ),
        spec_record_write(Some(m), false) == (
            Some(m),
            Err::<(), RecorderError>(RecorderError::PipeWriteError),
        ),
{
}

/// A first `stop` against an installed session succeeds and empties the
/// slot; a second one right after is refused with `NoActiveSession`.
pub proof fn lemma_stop_twice(m: SessionModel)
    ensures
        spec_begin_stop(Some(m)) == (None::<SessionModel>, Ok::<(), RecorderError>(())),
        ({
            let (cleared, first) = spec_begin_stop(Some(m));
            spec_begin_stop(cleared) == (
                None::<SessionModel>,
                Err::<(), RecorderError>(RecorderError::NoActiveSession),
            )
        }),
{
}

}
