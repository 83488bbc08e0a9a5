//! The recording session: a state machine over one long-running capture
//! process, plus the two-phase termination plan for stopping it.
//!
//! The caller (which owns the real subprocess handle and the lock around
//! this state) drives a start as: `prepare_start` under the lock, then
//! spawn outside it, then `commit_start` or `fail_start` under the lock
//! again. A stop is one `stop` transition under the lock — the handle
//! slot is emptied before any blocking wait — followed by the
//! termination steps on the handle that was taken out.

use vstd::prelude::*;
use crate::command::{spec_capture_args, build_capture_args, Platform};
use crate::error::EncoderError;

verus! {

/// What a capture session records: destination, frame rate, optional
/// explicit resolution (both dimensions or neither), audio, and an
/// optional display selector for multi-monitor machines.
#[derive(Debug)]
pub struct NativeRecordingConfig {
    pub output_path: String,
    pub fps: u32,
    pub width: Option<u32>,
    pub height: Option<u32>,
    pub audio: bool,
    pub display_id: Option<u32>,
}

impl NativeRecordingConfig {
    /// The data-model constraints: a positive frame rate, and an
    /// explicit resolution given with both dimensions or not at all.
    pub open spec fn valid(self) -> bool {
        &&& self.fps > 0
        &&& (self.width is Some <==> self.height is Some)
    }
}

impl Clone for NativeRecordingConfig {
    fn clone(&self) -> (r: Self)
        ensures
            r == *self,
    {
        NativeRecordingConfig {
            output_path: self.output_path.clone(),
            fps: self.fps,
            width: self.width,
            height: self.height,
            audio: self.audio,
            display_id: self.display_id,
        }
    }
}

/// The shared status record: the sole source of truth for whether a
/// recording is active, where it writes, and the last start failure.
#[derive(Debug)]
pub struct NativeRecordingStatus {
    pub is_recording: bool,
    pub output_path: Option<String>,
    pub error: Option<String>,
}

impl Clone for NativeRecordingStatus {
    fn clone(&self) -> (r: Self)
        ensures
            r == *self,
    {
        NativeRecordingStatus {
            is_recording: self.is_recording,
            output_path: match &self.output_path {
                Some(p) => Some(p.clone()),
                None => None,
            },
            error: match &self.error {
                Some(e) => Some(e.clone()),
                None => None,
            },
        }
    }
}

/// The one unit of shared session state: the status record and the
/// handle slot, to be read and written together under a single lock.
/// `handle_present` models whether the caller's handle slot is full.
#[derive(Debug)]
pub struct NativeRecorderState {
    pub status: NativeRecordingStatus,
    pub handle_present: bool,
}

impl NativeRecorderState {
    /// The session invariant: the handle slot is full exactly while a
    /// recording is active, and an active recording always has its
    /// output path on record.
    pub open spec fn inv(self) -> bool {
        &&& self.handle_present == self.status.is_recording
        &&& (self.status.is_recording ==> self.status.output_path is Some)
    }

    pub open spec fn recording(self) -> bool {
        self.status.is_recording
    }

    /// A start is admissible only from the idle state.
    pub open spec fn can_start(self) -> bool {
        !self.recording()
    }

    /// A stop is admissible only while recording.
    pub open spec fn can_stop(self) -> bool {
        self.recording()
    }

    pub fn new() -> (s: Self)
        ensures
            s.inv(),
            !s.recording(),
            s.status.output_path is None,
            s.status.error is None,
    {
        NativeRecorderState {
            status: NativeRecordingStatus { is_recording: false, output_path: None, error: None },
            handle_present: false,
        }
    }

    /// The start decision: rejected exactly when a recording is already
    /// in progress; otherwise the capture command to spawn.
    pub fn prepare_start(&self, platform: Platform, config: &NativeRecordingConfig) -> (r: Result<
        Vec<String>,
        EncoderError,
    >)
        requires
            self.inv(),
        ensures
            (r is Ok) <==> self.can_start(),
            r matches Ok(v) ==> v.deep_view() == spec_capture_args(platform, *config),
            r matches Err(e) ==> (e matches EncoderError::InvalidRequest(m) && m@
                == "Recording is already in progress"@),
    {
        if self.status.is_recording {
            Err(
                EncoderError::InvalidRequest(
                    String::from_str("Recording is already in progress"),
                ),
            )
        } else {
            Ok(build_capture_args(platform, config))
        }
    }

    /// The spawn succeeded: the status and the handle slot are updated
    /// together — recording, writing to the configured path, no error.
    pub fn commit_start(&mut self, config: &NativeRecordingConfig)
        requires
            old(self).inv(),
            old(self).can_start(),
        ensures
            final(self).inv(),
            final(self).recording(),
            final(self).status.output_path == Some(config.output_path),
            final(self).status.error is None,
            final(self).handle_present,
    {
        self.status.is_recording = true;
        self.status.output_path = Some(config.output_path.clone());
        self.status.error = None;
        self.handle_present = true;
    }

    /// The spawn failed: the failure message is recorded, and the
    /// session stays idle — this is the only transition that sets the
    /// error field.
    pub fn fail_start(&mut self, message: String)
        requires
            old(self).inv(),
            old(self).can_start(),
        ensures
            final(self).inv(),
            !final(self).recording(),
            final(self).status.error == Some(message),
            final(self).status.output_path == old(self).status.output_path,
            !final(self).handle_present,
    {
        self.status.error = Some(message);
    }

    /// The stop transition: rejected exactly when no recording is in
    /// progress. On success the handle slot is emptied and the status
    /// cleared in the same step — before any blocking wait happens —
    /// and the output path that was active is returned.
    pub fn stop(&mut self) -> (r: Result<String, EncoderError>)
        requires
            old(self).inv(),
        ensures
            final(self).inv(),
            (r is Ok) <==> old(self).can_stop(),
            old(self).can_stop() ==> {
                &&& !final(self).recording()
                &&& final(self).status.output_path is None
                &&& !final(self).handle_present
                &&& final(self).status.error == old(self).status.error
                &&& (r matches Ok(p) && Some(p) == old(self).status.output_path)
            },
            !old(self).can_stop() ==> {
                &&& *final(self) == *old(self)
                &&& (r matches Err(e) && (e matches EncoderError::InvalidRequest(m) && m@
                    == "No recording in progress"@))
            },
    {
        if !self.status.is_recording {
            return Err(
                EncoderError::InvalidRequest(String::from_str("No recording in progress")),
            );
        }
        let mut taken: Option<String> = None;
        core::mem::swap(&mut taken, &mut self.status.output_path);
        let path = match taken {
            Some(p) => p,
            None => {
                proof {
                    assert(false);
                }
                String::new()
            },
        };
        self.status.is_recording = false;
        self.handle_present = false;
        Ok(path)
    }

    /// A read-only snapshot of the status record; never blocks on the
    /// subprocess.
    pub fn status_snapshot(&self) -> (s: NativeRecordingStatus)
        ensures
            s == self.status,
    {
        self.status.clone()
    }
}

/// A session that is already recording admits no second start, and an
/// idle one admits no stop: the start and stop transitions reject those
/// requests as invalid, by their contracts, rather than acting twice.
pub proof fn lemma_start_stop_exclusive(s: NativeRecorderState)
    requires
        s.inv(),
    ensures
        s.recording() ==> !s.can_start(),
        !s.recording() ==> !s.can_stop(),
{
}

/// The grace period, in milliseconds, for the encoder to finalize its
/// output container after the interrupt signal.
pub const GRACE_PERIOD_MS: u64 = 500;

/// One action of the two-phase shutdown of the capture process.
#[derive(Clone, Copy, Debug, PartialEq, Eq, Structural)]
pub enum TermAction {
    /// Send the interrupt signal, asking the encoder to finalize.
    SendInterrupt,
    /// Wait up to this many milliseconds for the process to exit on its
    /// own.
    AwaitExit(u64),
    /// Kill the process forcefully.
    KillProcess,
    /// Wait for the process so no zombie remains.
    ReapProcess,
}

/// What the caller saw while performing a termination action.
#[derive(Clone, Copy, Debug, PartialEq, Eq, Structural)]
pub enum TermObservation {
    /// The action was performed; nothing more to report.
    Done,
    /// The process exited within the grace wait.
    ExitedInGrace,
    /// The grace wait elapsed and the process is still alive.
    StillRunning,
}

/// Where the shutdown stands.
#[derive(Clone, Copy, Debug)]
pub enum TermPhase {
    /// Sending the interrupt signal.
    Signal,
    /// Waiting out the grace period.
    Grace,
    /// Killing the process forcefully.
    Kill,
    /// Reaping the process.
    Reap,
    /// The shutdown is over.
    Finished,
}

/// The two-phase shutdown plan: on a platform with interrupt support,
/// signal, then wait up to the grace period; the forceful kill runs only
/// if the process is still alive after that wait. Without interrupt
/// support it escalates straight to the kill. Either way a final wait
/// reaps the process.
pub struct TerminationPlan {
    pub phase: TermPhase,
}

impl TerminationPlan {
    pub open spec fn spec_done(self) -> bool {
        self.phase is Finished
    }

    pub fn new(supports_interrupt: bool) -> (p: Self)
        ensures
            supports_interrupt ==> p.phase is Signal,
            !supports_interrupt ==> p.phase is Kill,
    {
        TerminationPlan {
            phase: if supports_interrupt {
                TermPhase::Signal
            } else {
                TermPhase::Kill
            },
        }
    }

    /// The next shutdown action, or `None` once the shutdown is over.
    pub fn current_action(&self) -> (r: Option<TermAction>)
        ensures
            (r is Some) <==> !self.spec_done(),
            match self.phase {
                TermPhase::Signal => r == Some(TermAction::SendInterrupt),
                TermPhase::Grace => r == Some(TermAction::AwaitExit(GRACE_PERIOD_MS)),
                TermPhase::Kill => r == Some(TermAction::KillProcess),
                TermPhase::Reap => r == Some(TermAction::ReapProcess),
                TermPhase::Finished => r is None,
            },
    {
        match self.phase {
            TermPhase::Signal => Some(TermAction::SendInterrupt),
            TermPhase::Grace => Some(TermAction::AwaitExit(GRACE_PERIOD_MS)),
            TermPhase::Kill => Some(TermAction::KillProcess),
            TermPhase::Reap => Some(TermAction::ReapProcess),
            TermPhase::Finished => None,
        }
    }

    /// The transition relation of one shutdown step: after the signal
    /// comes the grace wait; a process seen to exit within it goes
    /// straight to the reap, and only one still alive is killed; the
    /// reap is always last.
    pub open spec fn steps_to(pre: Self, ob: TermObservation, post: Self) -> bool {
        match pre.phase {
            TermPhase::Signal => post.phase is Grace,
            TermPhase::Grace => match ob {
                TermObservation::ExitedInGrace => post.phase is Reap,
                _ => post.phase is Kill,
            },
            TermPhase::Kill => post.phase is Reap,
            TermPhase::Reap => post.phase is Finished,
            TermPhase::Finished => false,
        }
    }

    pub fn step(&mut self, ob: TermObservation)
        requires
            !old(self).spec_done(),
        ensures
            Self::steps_to(*old(self), ob, *final(self)),
    {
        match self.phase {
            TermPhase::Signal => {
                self.phase = TermPhase::Grace;
            },
            TermPhase::Grace => match ob {
                TermObservation::ExitedInGrace => {
                    self.phase = TermPhase::Reap;
                },
                _ => {
                    self.phase = TermPhase::Kill;
                },
            },
            TermPhase::Kill => {
                self.phase = TermPhase::Reap;
            },
            TermPhase::Reap => {
                self.phase = TermPhase::Finished;
            },
            TermPhase::Finished => {
                proof {
                    assert(false);
                }
            },
        }
    }
}

/// A process that exits within the grace period is never killed: from
/// the grace wait, the exit observation leads to the reap, skipping the
/// kill phase, while only a process still alive is escalated to it.
pub proof fn lemma_graceful_exit_skips_kill(
    pre: TerminationPlan,
    ob: TermObservation,
    post: TerminationPlan,
)
    requires
        pre.phase is Grace,
        TerminationPlan::steps_to(pre, ob, post),
    ensures
        ob is ExitedInGrace ==> post.phase is Reap,
        ob is StillRunning ==> post.phase is Kill,
{
}

} // verus!
