use clipforge::command::Platform;
use clipforge::displays::{contains_substring, fallback_displays, filter_device_lines, split_lines};
use clipforge::error::EncoderError;
use clipforge::recorder::{
    get_recording_status, start_screen_record, stop_screen_record, RecordingConfig, RecordingState,
};
use clipforge::session::{
    NativeRecorderState, NativeRecordingConfig, TermAction, TermObservation, TerminationPlan,
    GRACE_PERIOD_MS,
};

fn native_config(path: &str) -> NativeRecordingConfig {
    NativeRecordingConfig {
        output_path: String::from(path),
        fps: 30,
        width: None,
        height: None,
        audio: false,
        display_id: None,
    }
}

#[test]
fn session_starts_and_reports_status() {
    let mut s = NativeRecorderState::new();
    assert!(!s.status_snapshot().is_recording);
    let config = native_config("rec.mp4");
    let args = s.prepare_start(Platform::Linux, &config).unwrap();
    assert!(args.contains(&String::from("x11grab")));
    s.commit_start(&config);
    let status = s.status_snapshot();
    assert!(status.is_recording);
    assert_eq!(status.output_path.unwrap(), "rec.mp4");
    assert!(status.error.is_none());
}

#[test]
fn double_start_is_rejected() {
    let mut s = NativeRecorderState::new();
    let config = native_config("rec.mp4");
    s.prepare_start(Platform::MacOs, &config).unwrap();
    s.commit_start(&config);
    match s.prepare_start(Platform::MacOs, &config) {
        Err(EncoderError::InvalidRequest(m)) => {
            assert_eq!(m, "Recording is already in progress");
        },
        other => panic!("a second start must be rejected, got {:?}", other),
    }
}

#[test]
fn stop_while_idle_is_rejected() {
    let mut s = NativeRecorderState::new();
    match s.stop() {
        Err(EncoderError::InvalidRequest(m)) => assert_eq!(m, "No recording in progress"),
        other => panic!("a stop while idle must be rejected, got {:?}", other),
    }
}

#[test]
fn stop_returns_the_active_path_and_empties_the_slot() {
    let mut s = NativeRecorderState::new();
    let config = native_config("session.mp4");
    s.prepare_start(Platform::Windows, &config).unwrap();
    s.commit_start(&config);
    let path = s.stop().unwrap();
    assert_eq!(path, "session.mp4");
    let status = s.status_snapshot();
    assert!(!status.is_recording);
    assert!(status.output_path.is_none());
    // The slot is empty again, so a new recording may start.
    assert!(s.prepare_start(Platform::Windows, &config).is_ok());
}

#[test]
fn failed_spawn_records_the_error_and_stays_idle() {
    let mut s = NativeRecorderState::new();
    let config = native_config("rec.mp4");
    s.prepare_start(Platform::Linux, &config).unwrap();
    s.fail_start(String::from("Failed to start recording: spawn refused"));
    let status = s.status_snapshot();
    assert!(!status.is_recording);
    assert_eq!(status.error.unwrap(), "Failed to start recording: spawn refused");
    // Starting is still possible afterwards.
    assert!(s.prepare_start(Platform::Linux, &config).is_ok());
}

/// Drives a termination plan, answering the grace wait with `in_grace`,
/// and returns the actions it asked for, in order.
fn drive_termination(supports_interrupt: bool, in_grace: TermObservation) -> Vec<TermAction> {
    let mut plan = TerminationPlan::new(supports_interrupt);
    let mut actions = Vec::new();
    while let Some(action) = plan.current_action() {
        actions.push(action);
        let observation = match action {
            TermAction::AwaitExit(_) => in_grace,
            _ => TermObservation::Done,
        };
        plan.step(observation);
    }
    actions
}

#[test]
fn termination_escalates_only_while_the_process_lives() {
    assert_eq!(
        drive_termination(true, TermObservation::StillRunning),
        vec![
            TermAction::SendInterrupt,
            TermAction::AwaitExit(GRACE_PERIOD_MS),
            TermAction::KillProcess,
            TermAction::ReapProcess,
        ]
    );
    assert_eq!(GRACE_PERIOD_MS, 500);
}

#[test]
fn termination_skips_the_kill_after_a_graceful_exit() {
    assert_eq!(
        drive_termination(true, TermObservation::ExitedInGrace),
        vec![
            TermAction::SendInterrupt,
            TermAction::AwaitExit(GRACE_PERIOD_MS),
            TermAction::ReapProcess,
        ]
    );
}

#[test]
fn termination_without_interrupt_support_kills_and_reaps() {
    assert_eq!(
        drive_termination(false, TermObservation::Done),
        vec![TermAction::KillProcess, TermAction::ReapProcess]
    );
}

#[test]
fn legacy_recorder_round_trip() {
    let mut state = RecordingState::new();
    let config = RecordingConfig {
        output_path: String::from("clip.webm"),
        fps: 24,
        width: None,
        height: None,
    };
    let msg = start_screen_record(&mut state, &config).unwrap();
    assert_eq!(msg, "Screen recording started: clip.webm");
    assert!(get_recording_status(&state).is_recording);
    assert!(start_screen_record(&mut state, &config).is_err());
    let msg = stop_screen_record(&mut state).unwrap();
    assert_eq!(msg, "Screen recording stopped: clip.webm");
    assert!(!get_recording_status(&state).is_recording);
    assert!(get_recording_status(&state).output_path.is_none());
    assert!(stop_screen_record(&mut state).is_err());
}

#[test]
fn substring_search() {
    assert!(contains_substring("AVFoundation video devices:", "AVFoundation video devices"));
    assert!(!contains_substring("audio devices", "video devices"));
    assert!(contains_substring("anything", ""));
    assert!(!contains_substring("", "x"));
}

#[test]
fn splitting_lines() {
    assert_eq!(split_lines("a\nb"), vec!["a", "b"]);
    assert_eq!(split_lines(""), vec![""]);
    assert_eq!(split_lines("a\nb\n"), vec!["a", "b", ""]);
    assert_eq!(split_lines("a\r\nb"), vec!["a", "b"]);
    assert_eq!(split_lines("a\r\nb\r\n"), vec!["a", "b", ""]);
    // A carriage return not followed by a newline is content, as in
    // str::lines.
    assert_eq!(split_lines("a\rb"), vec!["a\rb"]);
    assert_eq!(split_lines("a\r"), vec!["a\r"]);
    assert_eq!("a\r\nb".lines().collect::<Vec<_>>(), vec!["a", "b"]);
}

#[test]
fn device_lines_are_filtered_in_order() {
    let text = "[AVFoundation indev] AVFoundation video devices:\n\
                [AVFoundation indev] [0] Capture screen 0\n\
                [AVFoundation indev] AVFoundation audio devices:\n\
                [AVFoundation indev] [0] Microphone";
    let lines = filter_device_lines(text);
    assert_eq!(lines, vec!["[AVFoundation indev] AVFoundation video devices:"]);
    assert_eq!(filter_device_lines("nothing relevant"), Vec::<String>::new());
    // Diagnostic output with CRLF endings yields lines without the
    // carriage return.
    let crlf = "AVFoundation video devices:\r\n[0] Capture screen 0\r\n";
    assert_eq!(filter_device_lines(crlf), vec!["AVFoundation video devices:"]);
}

#[test]
fn fallback_display_listing() {
    assert_eq!(fallback_displays(), vec!["Primary Display"]);
}
