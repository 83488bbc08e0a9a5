//! The legacy recording surface: a status-only state machine that never
//! owns a subprocess (recording itself is done elsewhere, and only the
//! shared flag and path are kept here). It is superseded by the
//! process-backed session in [`crate::session`] but keeps the same
//! start/stop/status discipline under one contract.

use vstd::prelude::*;
use crate::error::EncoderError;

verus! {

/// What the legacy surface is asked to record.
#[derive(Debug)]
pub struct RecordingConfig {
    pub output_path: String,
    pub fps: u32,
    pub width: Option<u32>,
    pub height: Option<u32>,
}

impl Clone for RecordingConfig {
    fn clone(&self) -> (r: Self)
        ensures
            r == *self,
    {
        RecordingConfig {
            output_path: self.output_path.clone(),
            fps: self.fps,
            width: self.width,
            height: self.height,
        }
    }
}

/// The legacy status record: the recording flag and the active path.
#[derive(Debug)]
pub struct RecordingStatus {
    pub is_recording: bool,
    pub output_path: Option<String>,
}

impl Clone for RecordingStatus {
    fn clone(&self) -> (r: Self)
        ensures
            r == *self,
    {
        RecordingStatus {
            is_recording: self.is_recording,
            output_path: match &self.output_path {
                Some(p) => Some(p.clone()),
                None => None,
            },
        }
    }
}

/// The shared state of the legacy surface.
#[derive(Debug)]
pub struct RecordingState {
    pub status: RecordingStatus,
}

impl RecordingState {
    pub fn new() -> (s: Self)
        ensures
            !s.status.is_recording,
            s.status.output_path is None,
    {
        RecordingState {
            status: RecordingStatus { is_recording: false, output_path: None },
        }
    }
}

/// Marks a recording as started: rejected exactly when one is already in
/// progress; otherwise the flag and path are set together and the
/// confirmation message names the path.
pub fn start_screen_record(state: &mut RecordingState, config: &RecordingConfig) -> (r: Result<
    String,
    EncoderError,
>)
    ensures
        (r is Ok) <==> !old(state).status.is_recording,
        !old(state).status.is_recording ==> {
            &&& final(state).status.is_recording
            &&& final(state).status.output_path == Some(config.output_path)
            &&& (r matches Ok(m) && m@ == "Screen recording started: "@ + config.output_path@)
        },
        old(state).status.is_recording ==> {
            &&& *final(state) == *old(state)
            &&& (r matches Err(e) && (e matches EncoderError::InvalidRequest(m) && m@
                == "Recording is already in progress"@))
        },
{
    if state.status.is_recording {
        return Err(
            EncoderError::InvalidRequest(String::from_str("Recording is already in progress")),
        );
    }
    state.status.is_recording = true;
    state.status.output_path = Some(config.output_path.clone());
    Ok(String::from_str("Screen recording started: ").concat(config.output_path.as_str()))
}

/// Marks the recording as stopped: rejected exactly when none is in
/// progress; otherwise the flag and path are cleared together and the
/// message names the path that was active.
pub fn stop_screen_record(state: &mut RecordingState) -> (r: Result<String, EncoderError>)
    ensures
        (r is Ok) <==> old(state).status.is_recording,
        old(state).status.is_recording ==> {
            &&& !final(state).status.is_recording
            &&& final(state).status.output_path is None
            &&& (r matches Ok(m) && m@ == "Screen recording stopped: "@ + (match old(
                state,
            ).status.output_path {
                Some(p) => p@,
                None => "unknown"@,
            }))
        },
        !old(state).status.is_recording ==> {
            &&& *final(state) == *old(state)
            &&& (r matches Err(e) && (e matches EncoderError::InvalidRequest(m) && m@
                == "No recording in progress"@))
        },
{
    if !state.status.is_recording {
        return Err(
            EncoderError::InvalidRequest(String::from_str("No recording in progress")),
        );
    }
    let mut taken: Option<String> = None;
    core::mem::swap(&mut taken, &mut state.status.output_path);
    let path = match taken {
        Some(p) => p,
        None => String::from_str("unknown"),
    };
    state.status.is_recording = false;
    Ok(String::from_str("Screen recording stopped: ").concat(path.as_str()))
}

/// A read-only snapshot of the legacy status record.
pub fn get_recording_status(state: &RecordingState) -> (s: RecordingStatus)
    ensures
        s == state.status,
{
    state.status.clone()
}

} // verus!
