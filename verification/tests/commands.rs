use clipforge::command::{
    build_capture_args, build_concat_args, build_probe_args, build_single_clip_args,
    build_trim_args, get_quality_params, Platform,
};
use clipforge::export::ClipSegment;
use clipforge::manifest::{build_manifest, escape_concat_path, manifest_line, manifest_path, trim_path};
use clipforge::session::NativeRecordingConfig;
use clipforge::text::u64_to_string;

fn clip(path: &str, start: u64, end: u64) -> ClipSegment {
    ClipSegment { file_path: String::from(path), source_start: start, source_end: end }
}

#[test]
fn quality_low_profile() {
    assert_eq!(get_quality_params("low"), ("28", "fast"));
}

#[test]
fn quality_high_profile() {
    assert_eq!(get_quality_params("high"), ("18", "slow"));
}

#[test]
fn quality_medium_profile() {
    assert_eq!(get_quality_params("medium"), ("23", "medium"));
}

#[test]
fn quality_unknown_tiers_default_to_medium() {
    assert_eq!(get_quality_params("ultra"), ("23", "medium"));
    assert_eq!(get_quality_params(""), ("23", "medium"));
    assert_eq!(get_quality_params("LOW"), ("23", "medium"));
    assert_eq!(get_quality_params("highest"), ("23", "medium"));
}

#[test]
fn decimal_rendering() {
    assert_eq!(u64_to_string(0), "0");
    assert_eq!(u64_to_string(7), "7");
    assert_eq!(u64_to_string(10), "10");
    assert_eq!(u64_to_string(65535), "65535");
    assert_eq!(u64_to_string(u64::MAX), "18446744073709551615");
}

#[test]
fn trim_args_exact() {
    let c = clip("in.mp4", 3, 10);
    let args = build_trim_args(&c, "/tmp/w/trimmed_0.mp4");
    assert_eq!(
        args,
        vec![
            "-i",
            "in.mp4",
            "-ss",
            "3",
            "-t",
            "7",
            "-c",
            "copy",
            "-avoid_negative_ts",
            "make_zero",
            "-y",
            "/tmp/w/trimmed_0.mp4",
        ]
    );
}

#[test]
fn single_clip_args_exact() {
    let c = clip("movie.mov", 0, 5);
    let args = build_single_clip_args(&c, "out.mp4", "low");
    assert_eq!(
        args,
        vec![
            "-i",
            "movie.mov",
            "-ss",
            "0",
            "-t",
            "5",
            "-c:v",
            "libx264",
            "-crf",
            "28",
            "-preset",
            "fast",
            "-c:a",
            "aac",
            "-movflags",
            "+faststart",
            "-y",
            "out.mp4",
        ]
    );
}

#[test]
fn concat_args_exact() {
    let args = build_concat_args("/tmp/w/concat_list.txt", "final.mp4", "high");
    assert_eq!(
        args,
        vec![
            "-f",
            "concat",
            "-safe",
            "0",
            "-i",
            "/tmp/w/concat_list.txt",
            "-c:v",
            "libx264",
            "-crf",
            "18",
            "-preset",
            "slow",
            "-c:a",
            "aac",
            "-b:a",
            "192k",
            "-movflags",
            "+faststart",
            "-y",
            "final.mp4",
        ]
    );
}

#[test]
fn probe_args_exact() {
    assert_eq!(build_probe_args(), vec!["-version"]);
}

#[test]
fn manifest_escapes_quotes_and_joins_lines() {
    assert_eq!(escape_concat_path("plain.mp4"), "plain.mp4");
    assert_eq!(escape_concat_path("it's.mp4"), "it'\\''s.mp4");
    assert_eq!(manifest_line("a.mp4"), "file 'a.mp4'");
    let paths = vec![String::from("/w/trimmed_0.mp4"), String::from("/w/trimmed_1.mp4")];
    assert_eq!(
        build_manifest(&paths),
        "file '/w/trimmed_0.mp4'\nfile '/w/trimmed_1.mp4'"
    );
    assert_eq!(build_manifest(&vec![]), "");
}

#[test]
fn temp_paths_exact() {
    assert_eq!(trim_path("/w", 0), "/w/trimmed_0.mp4");
    assert_eq!(trim_path("/w", 12), "/w/trimmed_12.mp4");
    assert_eq!(manifest_path("/w"), "/w/concat_list.txt");
}

fn capture_config(audio: bool, size: Option<(u32, u32)>) -> NativeRecordingConfig {
    NativeRecordingConfig {
        output_path: String::from("cap.mp4"),
        fps: 30,
        width: size.map(|s| s.0),
        height: size.map(|s| s.1),
        audio,
        display_id: None,
    }
}

#[test]
fn capture_args_macos_with_audio_and_size() {
    let args = build_capture_args(Platform::MacOs, &capture_config(true, Some((1280, 720))));
    assert_eq!(
        args,
        vec![
            "-f",
            "avfoundation",
            "-capture_cursor",
            "1",
            "-capture_mouse_clicks",
            "1",
            "-framerate",
            "30",
            "-i",
            "1:0",
            "-c:v",
            "libx264",
            "-preset",
            "ultrafast",
            "-crf",
            "23",
            "-s",
            "1280x720",
            "-c:a",
            "aac",
            "-b:a",
            "128k",
            "-y",
            "cap.mp4",
        ]
    );
}

#[test]
fn capture_args_macos_silent_without_size() {
    let args = build_capture_args(Platform::MacOs, &capture_config(false, None));
    assert_eq!(
        args,
        vec![
            "-f",
            "avfoundation",
            "-capture_cursor",
            "1",
            "-capture_mouse_clicks",
            "1",
            "-framerate",
            "30",
            "-i",
            "1:none",
            "-c:v",
            "libx264",
            "-preset",
            "ultrafast",
            "-crf",
            "23",
            "-y",
            "cap.mp4",
        ]
    );
}

#[test]
fn capture_args_linux_defaults_video_size() {
    let args = build_capture_args(Platform::Linux, &capture_config(false, None));
    assert_eq!(
        args,
        vec![
            "-f",
            "x11grab",
            "-framerate",
            "30",
            "-video_size",
            "1920x1080",
            "-i",
            ":0.0",
            "-c:v",
            "libx264",
            "-preset",
            "ultrafast",
            "-crf",
            "23",
            "-y",
            "cap.mp4",
        ]
    );
}

#[test]
fn capture_args_linux_with_audio() {
    let args = build_capture_args(Platform::Linux, &capture_config(true, Some((800, 600))));
    assert_eq!(
        args,
        vec![
            "-f",
            "x11grab",
            "-framerate",
            "30",
            "-video_size",
            "800x600",
            "-i",
            ":0.0",
            "-f",
            "pulse",
            "-i",
            "default",
            "-c:a",
            "aac",
            "-b:a",
            "128k",
            "-c:v",
            "libx264",
            "-preset",
            "ultrafast",
            "-crf",
            "23",
            "-y",
            "cap.mp4",
        ]
    );
}

#[test]
fn capture_args_windows_with_audio_and_size() {
    let args = build_capture_args(Platform::Windows, &capture_config(true, Some((1920, 1080))));
    assert_eq!(
        args,
        vec![
            "-f",
            "gdigrab",
            "-framerate",
            "30",
            "-draw_mouse",
            "1",
            "-i",
            "desktop",
            "-f",
            "dshow",
            "-i",
            "audio=\"Microphone\"",
            "-c:a",
            "aac",
            "-b:a",
            "128k",
            "-c:v",
            "libx264",
            "-preset",
            "ultrafast",
            "-crf",
            "23",
            "-s",
            "1920x1080",
            "-y",
            "cap.mp4",
        ]
    );
}
