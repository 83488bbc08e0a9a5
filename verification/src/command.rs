//! The command builder: pure functions mapping a typed request to the
//! external encoder's argument list. No I/O happens here; every list is
//! pinned down exactly by a spec function.

use vstd::prelude::*;
use crate::export::ClipSegment;
use crate::session::NativeRecordingConfig;
use crate::text::{spec_dec, str_equal, u64_to_string};

verus! {

/// The closed set of capture backends: the screen-capture input device
/// and its flags differ by operating system, while the encode tail is
/// shared.
#[derive(Clone, Copy, Debug, PartialEq, Eq, Structural)]
pub enum Platform {
    MacOs,
    Linux,
    Windows,
}

/// The (compression-rate-factor, speed-preset) pair for a quality tier.
/// "low" and "high" have their own profiles; every other tier, the
/// known "medium" included, resolves to the medium default.
pub open spec fn resolve_quality(tier: Seq<char>) -> (Seq<char>, Seq<char>) {
    if tier == "low"@ {
        ("28"@, "fast"@)
    } else if tier == "high"@ {
        ("18"@, "slow"@)
    } else {
        ("23"@, "medium"@)
    }
}

/// A quality tier outside {low, medium, high} resolves to the medium
/// profile; the fallback is silent, not an error.
pub proof fn lemma_unknown_tier_defaults(tier: Seq<char>)
    requires
        tier != "low"@,
        tier != "medium"@,
        tier != "high"@,
    ensures
        resolve_quality(tier) == ("23"@, "medium"@),
{
}

/// Resolves a quality tier to its (crf, preset) argument values.
pub fn get_quality_params(quality: &str) -> (r: (&str, &str))
    ensures
        (r.0@, r.1@) == resolve_quality(quality@),
{
    if str_equal(quality, "low") {
        ("28", "fast")
    } else if str_equal(quality, "high") {
        ("18", "slow")
    } else {
        ("23", "medium")
    }
}

/// Arguments of a lossless trim of `clip` into `dest`: stream copy of
/// the clip's range, with negative timestamps dropped so the result is
/// safe as a concat input.
pub open spec fn spec_trim_args(clip: ClipSegment, dest: Seq<char>) -> Seq<Seq<char>> {
    seq![
        "-i"@,
        clip.file_path@,
        "-ss"@,
        spec_dec(clip.source_start as nat),
        "-t"@,
        spec_dec(clip.spec_duration()),
        "-c"@,
        "copy"@,
        "-avoid_negative_ts"@,
        "make_zero"@,
        "-y"@,
        dest,
    ]
}

pub fn build_trim_args(clip: &ClipSegment, dest: &str) -> (r: Vec<String>)
    requires
        clip.valid(),
    ensures
        r.deep_view() == spec_trim_args(*clip, dest@),
{
    let mut v: Vec<String> = Vec::new();
    v.push(String::from_str("-i"));
    v.push(clip.file_path.clone());
    v.push(String::from_str("-ss"));
    v.push(u64_to_string(clip.source_start));
    v.push(String::from_str("-t"));
    v.push(u64_to_string(clip.duration()));
    v.push(String::from_str("-c"));
    v.push(String::from_str("copy"));
    v.push(String::from_str("-avoid_negative_ts"));
    v.push(String::from_str("make_zero"));
    v.push(String::from_str("-y"));
    v.push(String::from_str(dest));
    proof {
        assert(v.deep_view() =~~= spec_trim_args(*clip, dest@));
    }
    v
}

/// Arguments of a one-pass trim and encode of a single clip straight to
/// the output path, with the resolved quality profile and a
/// streaming-friendly container layout.
pub open spec fn spec_single_clip_args(
    clip: ClipSegment,
    output: Seq<char>,
    tier: Seq<char>,
) -> Seq<Seq<char>> {
    let q = resolve_quality(tier);
    seq![
        "-i"@,
        clip.file_path@,
        "-ss"@,
        spec_dec(clip.source_start as nat),
        "-t"@,
        spec_dec(clip.spec_duration()),
        "-c:v"@,
        "libx264"@,
        "-crf"@,
        q.0,
        "-preset"@,
        q.1,
        "-c:a"@,
        "aac"@,
        "-movflags"@,
        "+faststart"@,
        "-y"@,
        output,
    ]
}

pub fn build_single_clip_args(clip: &ClipSegment, output_path: &str, quality: &str) -> (r: Vec<
    String,
>)
    requires
        clip.valid(),
    ensures
        r.deep_view() == spec_single_clip_args(*clip, output_path@, quality@),
{
    let (crf, preset) = get_quality_params(quality);
    let mut v: Vec<String> = Vec::new();
    v.push(String::from_str("-i"));
    v.push(clip.file_path.clone());
    v.push(String::from_str("-ss"));
    v.push(u64_to_string(clip.source_start));
    v.push(String::from_str("-t"));
    v.push(u64_to_string(clip.duration()));
    v.push(String::from_str("-c:v"));
    v.push(String::from_str("libx264"));
    v.push(String::from_str("-crf"));
    v.push(String::from_str(crf));
    v.push(String::from_str("-preset"));
    v.push(String::from_str(preset));
    v.push(String::from_str("-c:a"));
    v.push(String::from_str("aac"));
    v.push(String::from_str("-movflags"));
    v.push(String::from_str("+faststart"));
    v.push(String::from_str("-y"));
    v.push(String::from_str(output_path));
    proof {
        assert(v.deep_view() =~~= spec_single_clip_args(*clip, output_path@, quality@));
    }
    v
}

/// Arguments of the concat-and-encode pass: the manifest of trimmed
/// intermediates is read in order, video is re-encoded with the resolved
/// profile, audio at a fixed bitrate, and the container laid out for
/// streaming.
pub open spec fn spec_concat_args(
    manifest: Seq<char>,
    output: Seq<char>,
    tier: Seq<char>,
) -> Seq<Seq<char>> {
    let q = resolve_quality(tier);
    seq![
        "-f"@,
        "concat"@,
        "-safe"@,
        "0"@,
        "-i"@,
        manifest,
        "-c:v"@,
        "libx264"@,
        "-crf"@,
        q.0,
        "-preset"@,
        q.1,
        "-c:a"@,
        "aac"@,
        "-b:a"@,
        "192k"@,
        "-movflags"@,
        "+faststart"@,
        "-y"@,
        output,
    ]
}

pub fn build_concat_args(manifest_path: &str, output_path: &str, quality: &str) -> (r: Vec<String>)
    ensures
        r.deep_view() == spec_concat_args(manifest_path@, output_path@, quality@),
{
    let (crf, preset) = get_quality_params(quality);
    let mut v: Vec<String> = Vec::new();
    v.push(String::from_str("-f"));
    v.push(String::from_str("concat"));
    v.push(String::from_str("-safe"));
    v.push(String::from_str("0"));
    v.push(String::from_str("-i"));
    v.push(String::from_str(manifest_path));
    v.push(String::from_str("-c:v"));
    v.push(String::from_str("libx264"));
    v.push(String::from_str("-crf"));
    v.push(String::from_str(crf));
    v.push(String::from_str("-preset"));
    v.push(String::from_str(preset));
    v.push(String::from_str("-c:a"));
    v.push(String::from_str("aac"));
    v.push(String::from_str("-b:a"));
    v.push(String::from_str("192k"));
    v.push(String::from_str("-movflags"));
    v.push(String::from_str("+faststart"));
    v.push(String::from_str("-y"));
    v.push(String::from_str(output_path));
    proof {
        assert(v.deep_view() =~~= spec_concat_args(manifest_path@, output_path@, quality@));
    }
    v
}

/// The version-query arguments of the availability probe.
pub open spec fn spec_probe_args() -> Seq<Seq<char>> {
    seq!["-version"@]
}

pub fn build_probe_args() -> (r: Vec<String>)
    ensures
        r.deep_view() == spec_probe_args(),
{
    let mut v: Vec<String> = Vec::new();
    v.push(String::from_str("-version"));
    proof {
        assert(v.deep_view() =~~= spec_probe_args());
    }
    v
}

/// The "WIDTHxHEIGHT" resolution token.
pub open spec fn spec_size_arg(w: nat, h: nat) -> Seq<char> {
    spec_dec(w) + "x"@ + spec_dec(h)
}

fn size_arg(w: u32, h: u32) -> (r: String)
    ensures
        r@ == spec_size_arg(w as nat, h as nat),
{
    let mut s = u64_to_string(w as u64);
    s.append("x");
    let hs = u64_to_string(h as u64);
    s.append(hs.as_str());
    s
}

/// The capture arguments of one platform: the platform's input device
/// selection, then the common encode tail (fast preset, fixed
/// compression factor, optional explicit resolution, optional audio
/// block), ending with the output path.
pub open spec fn spec_capture_args(p: Platform, c: NativeRecordingConfig) -> Seq<Seq<char>> {
    let sized = c.width is Some && c.height is Some;
    match p {
        Platform::MacOs => seq![
            "-f"@,
            "avfoundation"@,
            "-capture_cursor"@,
            "1"@,
            "-capture_mouse_clicks"@,
            "1"@,
            "-framerate"@,
            spec_dec(c.fps as nat),
            "-i"@,
            (if c.audio {
                "1:0"@
            } else {
                "1:none"@
            }),
            "-c:v"@,
            "libx264"@,
            "-preset"@,
            "ultrafast"@,
            "-crf"@,
            "23"@,
        ] + (if sized {
            seq!["-s"@, spec_size_arg((c.width->Some_0) as nat, (c.height->Some_0) as nat)]
        } else {
            Seq::<Seq<char>>::empty()
        }) + (if c.audio {
            seq!["-c:a"@, "aac"@, "-b:a"@, "128k"@]
        } else {
            Seq::<Seq<char>>::empty()
        }) + seq!["-y"@, c.output_path@],
        Platform::Linux => seq![
            "-f"@,
            "x11grab"@,
            "-framerate"@,
            spec_dec(c.fps as nat),
            "-video_size"@,
            (if sized {
                spec_size_arg((c.width->Some_0) as nat, (c.height->Some_0) as nat)
            } else {
                "1920x1080"@
            }),
            "-i"@,
            ":0.0"@,
        ] + (if c.audio {
            seq!["-f"@, "pulse"@, "-i"@, "default"@, "-c:a"@, "aac"@, "-b:a"@, "128k"@]
        } else {
            Seq::<Seq<char>>::empty()
        }) + seq![
            "-c:v"@,
            "libx264"@,
            "-preset"@,
            "ultrafast"@,
            "-crf"@,
            "23"@,
            "-y"@,
            c.output_path@,
        ],
        Platform::Windows => seq![
            "-f"@,
            "gdigrab"@,
            "-framerate"@,
            spec_dec(c.fps as nat),
            "-draw_mouse"@,
            "1"@,
            "-i"@,
            "desktop"@,
        ] + (if c.audio {
            seq!["-f"@, "dshow"@, "-i"@, "audio=\"Microphone\""@, "-c:a"@, "aac"@, "-b:a"@, "128k"@]
        } else {
            Seq::<Seq<char>>::empty()
        }) + seq!["-c:v"@, "libx264"@, "-preset"@, "ultrafast"@, "-crf"@, "23"@] + (if sized {
            seq!["-s"@, spec_size_arg((c.width->Some_0) as nat, (c.height->Some_0) as nat)]
        } else {
            Seq::<Seq<char>>::empty()
        }) + seq!["-y"@, c.output_path@],
    }
}

pub fn build_capture_args(platform: Platform, config: &NativeRecordingConfig) -> (r: Vec<String>)
    ensures
        r.deep_view() == spec_capture_args(platform, *config),
{
    let mut v: Vec<String> = Vec::new();
    match platform {
        Platform::MacOs => {
            v.push(String::from_str("-f"));
            v.push(String::from_str("avfoundation"));
            v.push(String::from_str("-capture_cursor"));
            v.push(String::from_str("1"));
            v.push(String::from_str("-capture_mouse_clicks"));
            v.push(String::from_str("1"));
            v.push(String::from_str("-framerate"));
            v.push(u64_to_string(config.fps as u64));
            v.push(String::from_str("-i"));
            if config.audio {
                v.push(String::from_str("1:0"));
            } else {
                v.push(String::from_str("1:none"));
            }
            v.push(String::from_str("-c:v"));
            v.push(String::from_str("libx264"));
            v.push(String::from_str("-preset"));
            v.push(String::from_str("ultrafast"));
            v.push(String::from_str("-crf"));
            v.push(String::from_str("23"));
            if let (Some(w), Some(h)) = (config.width, config.height) {
                v.push(String::from_str("-s"));
                v.push(size_arg(w, h));
            }
            if config.audio {
                v.push(String::from_str("-c:a"));
                v.push(String::from_str("aac"));
                v.push(String::from_str("-b:a"));
                v.push(String::from_str("128k"));
            }
            v.push(String::from_str("-y"));
            v.push(config.output_path.clone());
        },
        Platform::Linux => {
            v.push(String::from_str("-f"));
            v.push(String::from_str("x11grab"));
            v.push(String::from_str("-framerate"));
            v.push(u64_to_string(config.fps as u64));
            v.push(String::from_str("-video_size"));
            if let (Some(w), Some(h)) = (config.width, config.height) {
                v.push(size_arg(w, h));
            } else {
                v.push(String::from_str("1920x1080"));
            }
            v.push(String::from_str("-i"));
            v.push(String::from_str(":0.0"));
            if config.audio {
                v.push(String::from_str("-f"));
                v.push(String::from_str("pulse"));
                v.push(String::from_str("-i"));
                v.push(String::from_str("default"));
                v.push(String::from_str("-c:a"));
                v.push(String::from_str("aac"));
                v.push(String::from_str("-b:a"));
                v.push(String::from_str("128k"));
            }
            v.push(String::from_str("-c:v"));
            v.push(String::from_str("libx264"));
            v.push(String::from_str("-preset"));
            v.push(String::from_str("ultrafast"));
            v.push(String::from_str("-crf"));
            v.push(String::from_str("23"));
            v.push(String::from_str("-y"));
            v.push(config.output_path.clone());
        },
        Platform::Windows => {
            v.push(String::from_str("-f"));
            v.push(String::from_str("gdigrab"));
            v.push(String::from_str("-framerate"));
            v.push(u64_to_string(config.fps as u64));
            v.push(String::from_str("-draw_mouse"));
            v.push(String::from_str("1"));
            v.push(String::from_str("-i"));
            v.push(String::from_str("desktop"));
            if config.audio {
                v.push(String::from_str("-f"));
                v.push(String::from_str("dshow"));
                v.push(String::from_str("-i"));
                v.push(String::from_str("audio=\"Microphone\""));
                v.push(String::from_str("-c:a"));
                v.push(String::from_str("aac"));
                v.push(String::from_str("-b:a"));
                v.push(String::from_str("128k"));
            }
            v.push(String::from_str("-c:v"));
            v.push(String::from_str("libx264"));
            v.push(String::from_str("-preset"));
            v.push(String::from_str("ultrafast"));
            v.push(String::from_str("-crf"));
            v.push(String::from_str("23"));
            if let (Some(w), Some(h)) = (config.width, config.height) {
                v.push(String::from_str("-s"));
                v.push(size_arg(w, h));
            }
            v.push(String::from_str("-y"));
            v.push(config.output_path.clone());
        },
    }
    proof {
        assert(v.deep_view() =~~= spec_capture_args(platform, *config));
    }
    v
}

} // verus!
