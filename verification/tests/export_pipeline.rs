use clipforge::error::EncoderError;
use clipforge::export::{ClipSegment, ExportAction, ExportMachine, ExportOptions, StepOutcome};

fn clip(path: &str, start: u64, end: u64) -> ClipSegment {
    ClipSegment { file_path: String::from(path), source_start: start, source_end: end }
}

fn options(clips: Vec<ClipSegment>, quality: &str) -> ExportOptions {
    ExportOptions {
        clips,
        output_path: String::from("out.mp4"),
        quality: String::from(quality),
    }
}

fn machine(clips: Vec<ClipSegment>, quality: &str) -> ExportMachine {
    ExportMachine::new(options(clips, quality), String::from("/w")).unwrap()
}

/// Feeds `Completed` for every action and returns the actions performed,
/// in order, with the final outcome and warning.
fn run_all_ok(mut m: ExportMachine) -> (Vec<ExportAction>, Result<String, EncoderError>, Option<String>) {
    let mut actions = Vec::new();
    while !m.is_done() {
        actions.push(m.current_action().unwrap());
        m.step(StepOutcome::Completed);
    }
    let warning = m.cleanup_warning().clone();
    (actions, m.into_outcome(), warning)
}

#[test]
fn empty_clip_list_is_rejected() {
    let r = ExportMachine::new(options(vec![], "medium"), String::from("/w"));
    match r {
        Err(EncoderError::InvalidRequest(m)) => assert_eq!(m, "No clips to export"),
        _ => panic!("an empty clip list must be rejected as an invalid request"),
    }
}

#[test]
fn empty_time_range_is_rejected() {
    let r = ExportMachine::new(
        options(vec![clip("a.mp4", 5, 5)], "medium"),
        String::from("/w"),
    );
    assert!(matches!(r, Err(EncoderError::InvalidRequest(_))));
    let r = ExportMachine::new(
        options(vec![clip("a.mp4", 0, 3), clip("b.mp4", 9, 2)], "medium"),
        String::from("/w"),
    );
    assert!(matches!(r, Err(EncoderError::InvalidRequest(_))));
}

#[test]
fn single_clip_export_uses_one_pass_and_no_temp_dir() {
    let (actions, outcome, warning) = run_all_ok(machine(vec![clip("movie.mov", 0, 5)], "low"));
    assert_eq!(actions.len(), 2);
    assert!(matches!(actions[0], ExportAction::CheckEncoder));
    match &actions[1] {
        ExportAction::RunEncoder(args) => {
            assert_eq!(
                args,
                &vec![
                    "-i",
                    "movie.mov",
                    "-ss",
                    "0",
                    "-t",
                    "5",
                    "-c:v",
                    "libx264",
                    "-crf",
                    "28",
                    "-preset",
                    "fast",
                    "-c:a",
                    "aac",
                    "-movflags",
                    "+faststart",
                    "-y",
                    "out.mp4",
                ]
            );
        },
        other => panic!("expected the one-pass encoder run, got {:?}", other),
    }
    for a in &actions {
        assert!(!matches!(a, ExportAction::CreateDir(_)));
        assert!(!matches!(a, ExportAction::RemoveDir(_)));
    }
    assert_eq!(outcome.unwrap(), "out.mp4");
    assert!(warning.is_none());
}

#[test]
fn two_clip_high_quality_pipeline() {
    let (actions, outcome, warning) = run_all_ok(
        machine(vec![clip("A", 0, 5), clip("B", 2, 8)], "high"),
    );
    assert_eq!(actions.len(), 7);
    assert!(matches!(actions[0], ExportAction::CheckEncoder));
    match &actions[1] {
        ExportAction::CreateDir(d) => assert_eq!(d, "/w"),
        other => panic!("expected the temp directory creation, got {:?}", other),
    }
    match &actions[2] {
        ExportAction::RunEncoder(args) => {
            assert_eq!(
                args,
                &vec![
                    "-i",
                    "A",
                    "-ss",
                    "0",
                    "-t",
                    "5",
                    "-c",
                    "copy",
                    "-avoid_negative_ts",
                    "make_zero",
                    "-y",
                    "/w/trimmed_0.mp4",
                ]
            );
        },
        other => panic!("expected the first trim run, got {:?}", other),
    }
    match &actions[3] {
        ExportAction::RunEncoder(args) => {
            assert_eq!(
                args,
                &vec![
                    "-i",
                    "B",
                    "-ss",
                    "2",
                    "-t",
                    "6",
                    "-c",
                    "copy",
                    "-avoid_negative_ts",
                    "make_zero",
                    "-y",
                    "/w/trimmed_1.mp4",
                ]
            );
        },
        other => panic!("expected the second trim run, got {:?}", other),
    }
    match &actions[4] {
        ExportAction::WriteFile(path, content) => {
            assert_eq!(path, "/w/concat_list.txt");
            assert_eq!(content, "file '/w/trimmed_0.mp4'\nfile '/w/trimmed_1.mp4'");
        },
        other => panic!("expected the manifest write, got {:?}", other),
    }
    match &actions[5] {
        ExportAction::RunEncoder(args) => {
            assert_eq!(
                args,
                &vec![
                    "-f",
                    "concat",
                    "-safe",
                    "0",
                    "-i",
                    "/w/concat_list.txt",
                    "-c:v",
                    "libx264",
                    "-crf",
                    "18",
                    "-preset",
                    "slow",
                    "-c:a",
                    "aac",
                    "-b:a",
                    "192k",
                    "-movflags",
                    "+faststart",
                    "-y",
                    "out.mp4",
                ]
            );
        },
        other => panic!("expected the concat run, got {:?}", other),
    }
    match &actions[6] {
        ExportAction::RemoveDir(d) => assert_eq!(d, "/w"),
        other => panic!("expected the cleanup, got {:?}", other),
    }
    assert_eq!(outcome.unwrap(), "out.mp4");
    assert!(warning.is_none());
}

#[test]
fn probe_failure_reports_binary_unavailable() {
    let mut m = machine(vec![clip("a", 0, 1)], "medium");
    assert!(matches!(m.current_action(), Some(ExportAction::CheckEncoder)));
    m.step(StepOutcome::LaunchFailed(String::from("no such file")));
    assert!(m.is_done());
    assert!(matches!(m.into_outcome(), Err(EncoderError::BinaryUnavailable)));
}

#[test]
fn single_clip_failure_carries_stderr_verbatim() {
    let mut m = machine(vec![clip("a", 0, 1)], "medium");
    m.step(StepOutcome::Completed);
    m.step(StepOutcome::ToolFailed(String::from("Invalid data found")));
    assert!(m.is_done());
    match m.into_outcome() {
        Err(EncoderError::EncodingFailure(text)) => assert_eq!(text, "Invalid data found"),
        other => panic!("expected the encoder's own diagnostic, got {:?}", other),
    }
}

#[test]
fn spawn_failure_is_its_own_error_kind() {
    let mut m = machine(vec![clip("a", 0, 1)], "medium");
    m.step(StepOutcome::Completed);
    m.step(StepOutcome::LaunchFailed(String::from("permission denied")));
    match m.into_outcome() {
        Err(EncoderError::SpawnFailure(text)) => assert_eq!(text, "permission denied"),
        other => panic!("expected a spawn failure, got {:?}", other),
    }
}

#[test]
fn temp_dir_creation_failure_is_a_filesystem_error() {
    let mut m = machine(vec![clip("a", 0, 1), clip("b", 0, 1)], "medium");
    m.step(StepOutcome::Completed);
    assert!(matches!(m.current_action(), Some(ExportAction::CreateDir(_))));
    m.step(StepOutcome::FsFailed(String::from("read-only filesystem")));
    assert!(m.is_done());
    match m.into_outcome() {
        Err(EncoderError::FilesystemFailure(text)) => assert_eq!(text, "read-only filesystem"),
        other => panic!("expected a filesystem failure, got {:?}", other),
    }
}

#[test]
fn failed_trim_aborts_remaining_trims_and_cleans_up() {
    let mut m = machine(vec![clip("a", 0, 2), clip("b", 0, 2), clip("c", 0, 2)], "medium");
    m.step(StepOutcome::Completed); // probe
    m.step(StepOutcome::Completed); // create temp dir
    assert!(matches!(m.current_action(), Some(ExportAction::RunEncoder(_)))); // trim 0
    m.step(StepOutcome::ToolFailed(String::from("trim exploded")));
    // No further encoder run: the one remaining action is the cleanup.
    match m.current_action() {
        Some(ExportAction::RemoveDir(d)) => assert_eq!(d, "/w"),
        other => panic!("expected best-effort cleanup after the failed trim, got {:?}", other),
    }
    m.step(StepOutcome::Completed);
    assert!(m.is_done());
    match m.into_outcome() {
        Err(EncoderError::EncodingFailure(text)) => assert_eq!(text, "trim exploded"),
        other => panic!("expected the original trim error, got {:?}", other),
    }
}

#[test]
fn cleanup_failure_does_not_mask_the_original_error() {
    let mut m = machine(vec![clip("a", 0, 2), clip("b", 0, 2)], "medium");
    m.step(StepOutcome::Completed); // probe
    m.step(StepOutcome::Completed); // create temp dir
    m.step(StepOutcome::Completed); // trim 0
    m.step(StepOutcome::Completed); // trim 1
    m.step(StepOutcome::Completed); // manifest
    m.step(StepOutcome::ToolFailed(String::from("concat failed"))); // concat
    assert!(matches!(m.current_action(), Some(ExportAction::RemoveDir(_))));
    m.step(StepOutcome::FsFailed(String::from("cannot delete")));
    assert!(m.is_done());
    match m.into_outcome() {
        Err(EncoderError::EncodingFailure(text)) => assert_eq!(text, "concat failed"),
        other => panic!("expected the concat error to survive cleanup failure, got {:?}", other),
    }
}

#[test]
fn cleanup_failure_after_success_is_a_warning_not_an_error() {
    let mut m = machine(vec![clip("a", 0, 2), clip("b", 0, 2)], "medium");
    m.step(StepOutcome::Completed); // probe
    m.step(StepOutcome::Completed); // create temp dir
    m.step(StepOutcome::Completed); // trim 0
    m.step(StepOutcome::Completed); // trim 1
    m.step(StepOutcome::Completed); // manifest
    m.step(StepOutcome::Completed); // concat
    assert!(matches!(m.current_action(), Some(ExportAction::RemoveDir(_))));
    m.step(StepOutcome::FsFailed(String::from("still in use")));
    assert!(m.is_done());
    assert_eq!(m.cleanup_warning().clone().unwrap(), "still in use");
    assert_eq!(m.into_outcome().unwrap(), "out.mp4");
}

#[test]
fn error_messages_are_human_readable() {
    let e = EncoderError::EncodingFailure(String::from("bad stream"));
    assert_eq!(e.message(), "FFmpeg error: bad stream");
    let e = EncoderError::InvalidRequest(String::from("No clips to export"));
    assert_eq!(e.message(), "No clips to export");
    let e = EncoderError::BinaryUnavailable;
    assert_eq!(
        e.message(),
        "FFmpeg is not installed or not in PATH. Please install FFmpeg to use this feature."
    );
    let e = EncoderError::SpawnFailure(String::from("os error 13"));
    assert_eq!(e.message(), "Failed to execute FFmpeg: os error 13");
    let e = EncoderError::FilesystemFailure(String::from("disk full"));
    assert_eq!(e.message(), "Filesystem error: disk full");
    let e = EncoderError::LockFailure;
    assert_eq!(e.message(), "Recorder state lock unavailable");
}
