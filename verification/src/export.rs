//! The export pipeline: request types and the state machine that
//! sequences the external encoder's trim, concat and cleanup steps.
//!
//! The machine owns every decision of an export. The caller owns the
//! effects: it asks for the current action ([`ExportMachine::current_action`]),
//! performs it (runs the encoder, touches the filesystem), and feeds the
//! outcome back into [`ExportMachine::step`]. Ghost trace fields record
//! which encoder runs and filesystem operations the machine has asked
//! for, so the pipeline's ordering and cleanup discipline are proved,
//! not just implemented.

use vstd::prelude::*;
use crate::command::{
    spec_concat_args, spec_single_clip_args, spec_trim_args, build_concat_args,
    build_single_clip_args, build_trim_args,
};
use crate::error::EncoderError;
use crate::manifest::{
    spec_manifest, spec_manifest_path, spec_trim_path, build_manifest, manifest_path, trim_path,
    trim_paths,
};

verus! {

/// One source clip of an export request: a time range of a source file.
/// `source_start` and `source_end` are in seconds; a segment is valid
/// only when the range is non-empty.
#[derive(Debug)]
pub struct ClipSegment {
    pub file_path: String,
    pub source_start: u64,
    pub source_end: u64,
}

impl ClipSegment {
    /// A segment denotes a non-empty time range.
    pub open spec fn valid(self) -> bool {
        self.source_start < self.source_end
    }

    /// The length of the denoted range, in seconds.
    pub open spec fn spec_duration(self) -> nat
        recommends
            self.valid(),
    {
        (self.source_end - self.source_start) as nat
    }

    pub fn duration(&self) -> (d: u64)
        requires
            self.valid(),
        ensures
            d as nat == self.spec_duration(),
    {
        self.source_end - self.source_start
    }
}

impl Clone for ClipSegment {
    fn clone(&self) -> (r: Self)
        ensures
            r == *self,
    {
        ClipSegment {
            file_path: self.file_path.clone(),
            source_start: self.source_start,
            source_end: self.source_end,
        }
    }
}

/// A full export request: the clips in output order, the destination
/// path, and the quality tier ("low", "medium" or "high"; anything else
/// falls back to medium).
#[derive(Debug)]
pub struct ExportOptions {
    pub clips: Vec<ClipSegment>,
    pub output_path: String,
    pub quality: String,
}

/// Where the pipeline stands.
#[derive(Clone, Copy, Debug)]
pub enum ExportPhase {
    /// Probing that the encoder binary is invocable.
    Probe,
    /// Running the one-pass trim and encode of a single-clip request.
    SingleRun,
    /// Creating the temporary working directory of a multi-clip request.
    CreateTempDir,
    /// Trimming the clip at this index into its intermediate file.
    TrimClip(usize),
    /// Writing the concat manifest.
    WriteManifest,
    /// Running the concat-and-encode pass.
    ConcatRun,
    /// Removing the working directory after a successful concat.
    CleanupAfterSuccess,
    /// Removing the working directory before surfacing a failure.
    CleanupAfterFailure,
    /// The export is over; the outcome is available.
    Finished,
}

/// What the caller must do next.
#[derive(Debug)]
pub enum ExportAction {
    /// Run the encoder with the version-query arguments and report
    /// whether it was invocable.
    CheckEncoder,
    /// Run the encoder with these arguments and wait for it to exit.
    RunEncoder(Vec<String>),
    /// Create the directory at this path.
    CreateDir(String),
    /// Write this content to the file at this path.
    WriteFile(String, String),
    /// Delete the directory at this path and everything in it.
    RemoveDir(String),
}

/// What came of the action the caller performed.
#[derive(Debug)]
pub enum StepOutcome {
    /// The action succeeded: the subprocess exited with status zero, or
    /// the filesystem operation went through.
    Completed,
    /// The encoder ran and exited non-zero; the payload is its captured
    /// standard-error text, unchanged.
    ToolFailed(String),
    /// The operating system refused to create the subprocess.
    LaunchFailed(String),
    /// The filesystem operation failed.
    FsFailed(String),
}

/// A ghost record of one filesystem operation the machine asked for.
pub enum FsOp {
    /// The working directory was created at this path.
    DirMade(Seq<char>),
    /// The manifest with this content was written at this path.
    FileWritten(Seq<char>, Seq<char>),
    /// Removal of the directory at this path was attempted; the flag
    /// tells whether it succeeded.
    DirRemoved(Seq<char>, bool),
}

/// The error a failure event stands for, following the taxonomy: a
/// non-zero exit is an encoding failure, a refused spawn a spawn
/// failure, a filesystem refusal a filesystem failure.
pub open spec fn spec_event_error(ev: StepOutcome) -> EncoderError
    recommends
        !(ev is Completed),
{
    match ev {
        StepOutcome::Completed => EncoderError::BinaryUnavailable,
        StepOutcome::ToolFailed(m) => EncoderError::EncodingFailure(m),
        StepOutcome::LaunchFailed(m) => EncoderError::SpawnFailure(m),
        StepOutcome::FsFailed(m) => EncoderError::FilesystemFailure(m),
    }
}

/// The state machine of one export. Constructed from a request and a
/// caller-chosen working-directory path (which must be unique to this
/// export, so that concurrent exports cannot interfere).
pub struct ExportMachine {
    pub clips: Vec<ClipSegment>,
    pub output_path: String,
    pub quality: String,
    pub temp_dir: String,
    pub phase: ExportPhase,
    /// The error to surface once failure cleanup is done.
    pub pending: Option<EncoderError>,
    /// The final result, present exactly in the `Finished` phase.
    pub outcome: Option<Result<String, EncoderError>>,
    /// On success only: the cleanup failure message, if deleting the
    /// working directory failed after a fully successful export.
    pub warning: Option<String>,
    /// Ghost trace: the argument lists of the encoder runs asked for,
    /// in order (the availability probe is not an encoder run).
    pub runs: Ghost<Seq<Seq<Seq<char>>>>,
    /// Ghost trace: the filesystem operations asked for, in order.
    pub fsops: Ghost<Seq<FsOp>>,
}

impl ExportMachine {
    /// Every clip is present and valid.
    pub open spec fn clips_ok(self) -> bool {
        &&& self.clips@.len() >= 1
        &&& forall|i: int| 0 <= i < self.clips@.len() ==> self.clips@[i].valid()
    }

    /// The expected trim runs for the first `k` clips, in input order.
    pub open spec fn trims_expected(self, k: int) -> Seq<Seq<Seq<char>>> {
        Seq::new(
            k as nat,
            |i: int| spec_trim_args(self.clips@[i], spec_trim_path(self.temp_dir@, i as nat)),
        )
    }

    /// The intermediate paths the manifest lists, in order.
    pub open spec fn manifest_paths(self) -> Seq<Seq<char>> {
        Seq::new(self.clips@.len(), |i: int| spec_trim_path(self.temp_dir@, i as nat))
    }

    /// The expected concat-and-encode run.
    pub open spec fn concat_run_expected(self) -> Seq<Seq<char>> {
        spec_concat_args(
            spec_manifest_path(self.temp_dir@),
            self.output_path@,
            self.quality@,
        )
    }

    /// Whether the trace holds a creation of the working directory.
    pub open spec fn made_dir(self) -> bool {
        exists|i: int| 0 <= i < self.fsops@.len() && (self.fsops@[i] is DirMade)
    }

    pub open spec fn spec_done(self) -> bool {
        self.phase is Finished
    }

    /// The machine's invariant: what each phase guarantees about the
    /// request, the trace so far, and the recorded outcome.
    pub open spec fn inv(self) -> bool {
        &&& self.clips_ok()
        &&& (self.clips@.len() == 1 ==> self.fsops@ == Seq::<FsOp>::empty())
        &&& match self.phase {
            ExportPhase::Probe => {
                &&& self.runs@ == Seq::<Seq<Seq<char>>>::empty()
                &&& self.fsops@ == Seq::<FsOp>::empty()
                &&& self.outcome is None
                &&& self.pending is None
                &&& self.warning is None
            },
            ExportPhase::SingleRun => {
                &&& self.clips@.len() == 1
                &&& self.runs@ == Seq::<Seq<Seq<char>>>::empty()
                &&& self.outcome is None
                &&& self.pending is None
                &&& self.warning is None
            },
            ExportPhase::CreateTempDir => {
                &&& self.clips@.len() >= 2
                &&& self.runs@ == Seq::<Seq<Seq<char>>>::empty()
                &&& self.fsops@ == Seq::<FsOp>::empty()
                &&& self.outcome is None
                &&& self.pending is None
                &&& self.warning is None
            },
            ExportPhase::TrimClip(i) => {
                &&& self.clips@.len() >= 2
                &&& i < self.clips@.len()
                &&& self.runs@ == self.trims_expected(i as int)
                &&& self.fsops@ == seq![FsOp::DirMade(self.temp_dir@)]
                &&& self.outcome is None
                &&& self.pending is None
                &&& self.warning is None
            },
            ExportPhase::WriteManifest => {
                &&& self.clips@.len() >= 2
                &&& self.runs@ == self.trims_expected(self.clips@.len() as int)
                &&& self.fsops@ == seq![FsOp::DirMade(self.temp_dir@)]
                &&& self.outcome is None
                &&& self.pending is None
                &&& self.warning is None
            },
            ExportPhase::ConcatRun => {
                &&& self.clips@.len() >= 2
                &&& self.runs@ == self.trims_expected(self.clips@.len() as int)
                &&& self.fsops@ == seq![
                    FsOp::DirMade(self.temp_dir@),
                    FsOp::FileWritten(
                        spec_manifest_path(self.temp_dir@),
                        spec_manifest(self.manifest_paths()),
                    ),
                ]
                &&& self.outcome is None
                &&& self.pending is None
                &&& self.warning is None
            },
            ExportPhase::CleanupAfterSuccess => {
                &&& self.clips@.len() >= 2
                &&& self.runs@ == self.trims_expected(self.clips@.len() as int).push(
                    self.concat_run_expected(),
                )
                &&& self.outcome is None
                &&& self.pending is None
                &&& self.warning is None
            },
            ExportPhase::CleanupAfterFailure => {
                &&& self.clips@.len() >= 2
                &&& self.pending is Some
                &&& self.outcome is None
                &&& self.warning is None
            },
            ExportPhase::Finished => {
                &&& self.outcome is Some
                &&& (match self.outcome {
                    Some(Ok(p)) => p@ == self.output_path@,
                    _ => true,
                })
                &&& ((self.outcome matches Some(Ok(_))) ==> (if self.clips@.len() == 1 {
                    self.runs@ == seq![
                        spec_single_clip_args(self.clips@[0], self.output_path@, self.quality@),
                    ]
                } else {
                    self.runs@ == self.trims_expected(self.clips@.len() as int).push(
                        self.concat_run_expected(),
                    )
                }))
                &&& (self.warning is Some ==> (match self.outcome {
                    Some(Ok(_)) => true,
                    _ => false,
                }))
                &&& (self.made_dir() ==> self.fsops@.len() >= 1 && (match self.fsops@.last() {
                    FsOp::DirRemoved(d, _) => d == self.temp_dir@,
                    _ => false,
                }))
                &&& ((self.made_dir() && self.warning is None && (match self.outcome {
                    Some(Ok(_)) => true,
                    _ => false,
                })) ==> self.fsops@.last() == FsOp::DirRemoved(self.temp_dir@, true))
            },
        }
    }

    /// Builds the machine for a request. The request is rejected, and
    /// nothing will ever be run or written, exactly when the clip list
    /// is empty or some clip has an empty time range.
    pub fn new(options: ExportOptions, temp_dir: String) -> (r: Result<ExportMachine, EncoderError>)
        ensures
            (r is Ok) <==> (options.clips@.len() >= 1 && (forall|i: int|
                0 <= i < options.clips@.len() ==> options.clips@[i].valid())),
            r matches Ok(m) ==> {
                &&& m.inv()
                &&& m.phase is Probe
                &&& m.clips == options.clips
                &&& m.output_path == options.output_path
                &&& m.quality == options.quality
                &&& m.temp_dir == temp_dir
                &&& m.runs@ == Seq::<Seq<Seq<char>>>::empty()
                &&& m.fsops@ == Seq::<FsOp>::empty()
            },
            r matches Err(e) ==> (e matches EncoderError::InvalidRequest(_)),
            options.clips@.len() == 0 ==> (r matches Err(e) && (e
                matches EncoderError::InvalidRequest(m) && m@ == "No clips to export"@)),
    {
        let n = options.clips.len();
        if n == 0 {
            return Err(EncoderError::InvalidRequest(String::from_str("No clips to export")));
        }
        let mut i: usize = 0;
        while i < n
            invariant
                i <= n,
                n == options.clips@.len(),
                forall|j: int| 0 <= j < i ==> options.clips@[j].valid(),
            decreases n - i,
        {
            if options.clips[i].source_start >= options.clips[i].source_end {
                proof {
                    assert(!options.clips@[i as int].valid());
                }
                return Err(
                    EncoderError::InvalidRequest(
                        String::from_str("Clip has an empty time range"),
                    ),
                );
            }
            i += 1;
        }
        Ok(
            ExportMachine {
                clips: options.clips,
                output_path: options.output_path,
                quality: options.quality,
                temp_dir,
                phase: ExportPhase::Probe,
                pending: None,
                outcome: None,
                warning: None,
                runs: Ghost(Seq::empty()),
                fsops: Ghost(Seq::empty()),
            },
        )
    }

    pub fn is_done(&self) -> (b: bool)
        ensures
            b == self.spec_done(),
    {
        matches!(self.phase, ExportPhase::Finished)
    }

    /// The next action the caller must perform, or `None` once the
    /// export is over. Every argument list is pinned down exactly.
    pub fn current_action(&self) -> (r: Option<ExportAction>)
        requires
            self.inv(),
        ensures
            (r is Some) <==> !self.spec_done(),
            match self.phase {
                ExportPhase::Probe => r matches Some(ExportAction::CheckEncoder),
                ExportPhase::SingleRun => r matches Some(ExportAction::RunEncoder(v))
                    && v.deep_view() == spec_single_clip_args(
                    self.clips@[0],
                    self.output_path@,
                    self.quality@,
                ),
                ExportPhase::CreateTempDir => r matches Some(ExportAction::CreateDir(d)) && d@
                    == self.temp_dir@,
                ExportPhase::TrimClip(i) => r matches Some(ExportAction::RunEncoder(v))
                    && v.deep_view() == spec_trim_args(
                    self.clips@[i as int],
                    spec_trim_path(self.temp_dir@, i as nat),
                ),
                ExportPhase::WriteManifest => r matches Some(ExportAction::WriteFile(p, c)) && p@
                    == spec_manifest_path(self.temp_dir@) && c@ == spec_manifest(
                    self.manifest_paths(),
                ),
                ExportPhase::ConcatRun => r matches Some(ExportAction::RunEncoder(v))
                    && v.deep_view() == self.concat_run_expected(),
                ExportPhase::CleanupAfterSuccess => r matches Some(ExportAction::RemoveDir(d))
                    && d@ == self.temp_dir@,
                ExportPhase::CleanupAfterFailure => r matches Some(ExportAction::RemoveDir(d))
                    && d@ == self.temp_dir@,
                ExportPhase::Finished => r is None,
            },
    {
        match self.phase {
            ExportPhase::Probe => Some(ExportAction::CheckEncoder),
            ExportPhase::SingleRun => Some(
                ExportAction::RunEncoder(
                    build_single_clip_args(
                        &self.clips[0],
                        self.output_path.as_str(),
                        self.quality.as_str(),
                    ),
                ),
            ),
            ExportPhase::CreateTempDir => Some(ExportAction::CreateDir(self.temp_dir.clone())),
            ExportPhase::TrimClip(i) => {
                let dest = trim_path(self.temp_dir.as_str(), i as u64);
                Some(ExportAction::RunEncoder(build_trim_args(&self.clips[i], dest.as_str())))
            },
            ExportPhase::WriteManifest => {
                let paths = trim_paths(self.temp_dir.as_str(), self.clips.len());
                let content = build_manifest(&paths);
                proof {
                    assert(paths.deep_view() =~= self.manifest_paths());
                }
                Some(
                    ExportAction::WriteFile(manifest_path(self.temp_dir.as_str()), content),
                )
            },
            ExportPhase::ConcatRun => {
                let mpath = manifest_path(self.temp_dir.as_str());
                Some(
                    ExportAction::RunEncoder(
                        build_concat_args(
                            mpath.as_str(),
                            self.output_path.as_str(),
                            self.quality.as_str(),
                        ),
                    ),
                )
            },
            ExportPhase::CleanupAfterSuccess => Some(
                ExportAction::RemoveDir(self.temp_dir.clone()),
            ),
            ExportPhase::CleanupAfterFailure => Some(
                ExportAction::RemoveDir(self.temp_dir.clone()),
            ),
            ExportPhase::Finished => None,
        }
    }

    /// The full transition relation of one step: from the machine before
    /// the step and the event the caller reported, what the machine
    /// after the step must be.
    pub open spec fn steps_to(pre: Self, ev: StepOutcome, post: Self) -> bool {
        &&& post.clips == pre.clips
        &&& post.output_path == pre.output_path
        &&& post.quality == pre.quality
        &&& post.temp_dir == pre.temp_dir
        &&& match pre.phase {
            ExportPhase::Probe => match ev {
                StepOutcome::Completed => {
                    &&& post.phase == (if pre.clips@.len() == 1 {
                        ExportPhase::SingleRun
                    } else {
                        ExportPhase::CreateTempDir
                    })
                    &&& post.runs@ == pre.runs@
                    &&& post.fsops@ == pre.fsops@
                    &&& post.outcome is None
                    &&& post.pending is None
                    &&& post.warning is None
                },
                _ => {
                    &&& post.phase is Finished
                    &&& post.outcome == Some(
                        Result::<String, EncoderError>::Err(EncoderError::BinaryUnavailable),
                    )
                    &&& post.runs@ == pre.runs@
                    &&& post.fsops@ == pre.fsops@
                    &&& post.warning is None
                },
            },
            ExportPhase::SingleRun => {
                &&& post.phase is Finished
                &&& post.runs@ == pre.runs@.push(
                    spec_single_clip_args(pre.clips@[0], pre.output_path@, pre.quality@),
                )
                &&& post.fsops@ == pre.fsops@
                &&& post.warning is None
                &&& match ev {
                    StepOutcome::Completed => post.outcome == Some(
                        Result::<String, EncoderError>::Ok(pre.output_path),
                    ),
                    _ => post.outcome == Some(
                        Result::<String, EncoderError>::Err(spec_event_error(ev)),
                    ),
                }
            },
            ExportPhase::CreateTempDir => match ev {
                StepOutcome::Completed => {
                    &&& post.phase == ExportPhase::TrimClip(0)
                    &&& post.runs@ == pre.runs@
                    &&& post.fsops@ == pre.fsops@.push(FsOp::DirMade(pre.temp_dir@))
                    &&& post.outcome is None
                    &&& post.pending is None
                    &&& post.warning is None
                },
                _ => {
                    &&& post.phase is Finished
                    &&& post.outcome == Some(
                        Result::<String, EncoderError>::Err(spec_event_error(ev)),
                    )
                    &&& post.runs@ == pre.runs@
                    &&& post.fsops@ == pre.fsops@
                    &&& post.warning is None
                },
            },
            ExportPhase::TrimClip(i) => {
                &&& post.runs@ == pre.runs@.push(
                    spec_trim_args(pre.clips@[i as int], spec_trim_path(pre.temp_dir@, i as nat)),
                )
                &&& post.fsops@ == pre.fsops@
                &&& post.warning is None
                &&& match ev {
                    StepOutcome::Completed => {
                        &&& post.phase == (if i + 1 == pre.clips@.len() {
                            ExportPhase::WriteManifest
                        } else {
                            ExportPhase::TrimClip((i + 1) as usize)
                        })
                        &&& post.outcome is None
                        &&& post.pending is None
                    },
                    _ => {
                        &&& post.phase is CleanupAfterFailure
                        &&& post.pending == Some(spec_event_error(ev))
                        &&& post.outcome is None
                    },
                }
            },
            ExportPhase::WriteManifest => match ev {
                StepOutcome::Completed => {
                    &&& post.phase is ConcatRun
                    &&& post.runs@ == pre.runs@
                    &&& post.fsops@ == pre.fsops@.push(
                        FsOp::FileWritten(
                            spec_manifest_path(pre.temp_dir@),
                            spec_manifest(pre.manifest_paths()),
                        ),
                    )
                    &&& post.outcome is None
                    &&& post.pending is None
                    &&& post.warning is None
                },
                _ => {
                    &&& post.phase is CleanupAfterFailure
                    &&& post.pending == Some(spec_event_error(ev))
                    &&& post.runs@ == pre.runs@
                    &&& post.fsops@ == pre.fsops@
                    &&& post.outcome is None
                    &&& post.warning is None
                },
            },
            ExportPhase::ConcatRun => {
                &&& post.runs@ == pre.runs@.push(pre.concat_run_expected())
                &&& post.fsops@ == pre.fsops@
                &&& post.warning is None
                &&& match ev {
                    StepOutcome::Completed => {
                        &&& post.phase is CleanupAfterSuccess
                        &&& post.outcome is None
                        &&& post.pending is None
                    },
                    _ => {
                        &&& post.phase is CleanupAfterFailure
                        &&& post.pending == Some(spec_event_error(ev))
                        &&& post.outcome is None
                    },
                }
            },
            ExportPhase::CleanupAfterSuccess => {
                &&& post.phase is Finished
                &&& post.runs@ == pre.runs@
                &&& post.outcome == Some(Result::<String, EncoderError>::Ok(pre.output_path))
                &&& match ev {
                    StepOutcome::Completed => {
                        &&& post.fsops@ == pre.fsops@.push(FsOp::DirRemoved(pre.temp_dir@, true))
                        &&& post.warning is None
                    },
                    StepOutcome::ToolFailed(m) | StepOutcome::LaunchFailed(m)
                        | StepOutcome::FsFailed(m) => {
                        &&& post.fsops@ == pre.fsops@.push(FsOp::DirRemoved(pre.temp_dir@, false))
                        &&& post.warning == Some(m)
                    },
                }
            },
            ExportPhase::CleanupAfterFailure => {
                &&& post.phase is Finished
                &&& post.runs@ == pre.runs@
                &&& (match pre.pending {
                    Some(e) => post.outcome == Some(Result::<String, EncoderError>::Err(e)),
                    None => false,
                })
                &&& post.fsops@ == pre.fsops@.push(
                    FsOp::DirRemoved(pre.temp_dir@, ev is Completed),
                )
                &&& post.warning is None
            },
            ExportPhase::Finished => false,
        }
    }

    /// Performs one transition for the event the caller reported.
    pub fn step(&mut self, ev: StepOutcome)
        requires
            old(self).inv(),
            !old(self).spec_done(),
        ensures
            final(self).inv(),
            Self::steps_to(*old(self), ev, *final(self)),
    {
        match self.phase {
            ExportPhase::Probe => match ev {
                StepOutcome::Completed => {
                    if self.clips.len() == 1 {
                        self.phase = ExportPhase::SingleRun;
                    } else {
                        self.phase = ExportPhase::CreateTempDir;
                    }
                },
                _ => {
                    self.phase = ExportPhase::Finished;
                    self.outcome = Some(Err(EncoderError::BinaryUnavailable));
                },
            },
            ExportPhase::SingleRun => {
                self.runs = Ghost(
                    self.runs@.push(
                        spec_single_clip_args(self.clips@[0], self.output_path@, self.quality@),
                    ),
                );
                self.phase = ExportPhase::Finished;
                proof {
                    assert(self.runs@ =~= seq![
                        spec_single_clip_args(self.clips@[0], self.output_path@, self.quality@),
                    ]);
                }
                match ev {
                    StepOutcome::Completed => {
                        self.outcome = Some(Ok(self.output_path.clone()));
                    },
                    StepOutcome::ToolFailed(m) => {
                        self.outcome = Some(Err(EncoderError::EncodingFailure(m)));
                    },
                    StepOutcome::LaunchFailed(m) => {
                        self.outcome = Some(Err(EncoderError::SpawnFailure(m)));
                    },
                    StepOutcome::FsFailed(m) => {
                        self.outcome = Some(Err(EncoderError::FilesystemFailure(m)));
                    },
                }
            },
            ExportPhase::CreateTempDir => match ev {
                StepOutcome::Completed => {
                    self.fsops = Ghost(self.fsops@.push(FsOp::DirMade(self.temp_dir@)));
                    self.phase = ExportPhase::TrimClip(0);
                    proof {
                        assert(self.fsops@ =~= seq![FsOp::DirMade(self.temp_dir@)]);
                        assert(self.runs@ =~= self.trims_expected(0));
                    }
                },
                StepOutcome::ToolFailed(m) => {
                    self.phase = ExportPhase::Finished;
                    self.outcome = Some(Err(EncoderError::EncodingFailure(m)));
                },
                StepOutcome::LaunchFailed(m) => {
                    self.phase = ExportPhase::Finished;
                    self.outcome = Some(Err(EncoderError::SpawnFailure(m)));
                },
                StepOutcome::FsFailed(m) => {
                    self.phase = ExportPhase::Finished;
                    self.outcome = Some(Err(EncoderError::FilesystemFailure(m)));
                },
            },
            ExportPhase::TrimClip(i) => {
                let n = self.clips.len();
                proof {
                    assert(i < n);
                }
                self.runs = Ghost(
                    self.runs@.push(
                        spec_trim_args(
                            self.clips@[i as int],
                            spec_trim_path(self.temp_dir@, i as nat),
                        ),
                    ),
                );
                match ev {
                    StepOutcome::Completed => {
                        if i + 1 == n {
                            self.phase = ExportPhase::WriteManifest;
                            proof {
                                assert(self.runs@ =~= self.trims_expected(
                                    self.clips@.len() as int,
                                ));
                            }
                        } else {
                            self.phase = ExportPhase::TrimClip(i + 1);
                            proof {
                                assert(self.runs@ =~= self.trims_expected(i + 1 as int));
                            }
                        }
                    },
                    StepOutcome::ToolFailed(m) => {
                        self.phase = ExportPhase::CleanupAfterFailure;
                        self.pending = Some(EncoderError::EncodingFailure(m));
                    },
                    StepOutcome::LaunchFailed(m) => {
                        self.phase = ExportPhase::CleanupAfterFailure;
                        self.pending = Some(EncoderError::SpawnFailure(m));
                    },
                    StepOutcome::FsFailed(m) => {
                        self.phase = ExportPhase::CleanupAfterFailure;
                        self.pending = Some(EncoderError::FilesystemFailure(m));
                    },
                }
            },
            ExportPhase::WriteManifest => match ev {
                StepOutcome::Completed => {
                    self.fsops = Ghost(
                        self.fsops@.push(
                            FsOp::FileWritten(
                                spec_manifest_path(self.temp_dir@),
                                spec_manifest(self.manifest_paths()),
                            ),
                        ),
                    );
                    self.phase = ExportPhase::ConcatRun;
                    proof {
                        assert(self.fsops@ =~= seq![
                            FsOp::DirMade(self.temp_dir@),
                            FsOp::FileWritten(
                                spec_manifest_path(self.temp_dir@),
                                spec_manifest(self.manifest_paths()),
                            ),
                        ]);
                    }
                },
                StepOutcome::ToolFailed(m) => {
                    self.phase = ExportPhase::CleanupAfterFailure;
                    self.pending = Some(EncoderError::EncodingFailure(m));
                },
                StepOutcome::LaunchFailed(m) => {
                    self.phase = ExportPhase::CleanupAfterFailure;
                    self.pending = Some(EncoderError::SpawnFailure(m));
                },
                StepOutcome::FsFailed(m) => {
                    self.phase = ExportPhase::CleanupAfterFailure;
                    self.pending = Some(EncoderError::FilesystemFailure(m));
                },
            },
            ExportPhase::ConcatRun => {
                self.runs = Ghost(self.runs@.push(self.concat_run_expected()));
                match ev {
                    StepOutcome::Completed => {
                        self.phase = ExportPhase::CleanupAfterSuccess;
                    },
                    StepOutcome::ToolFailed(m) => {
                        self.phase = ExportPhase::CleanupAfterFailure;
                        self.pending = Some(EncoderError::EncodingFailure(m));
                    },
                    StepOutcome::LaunchFailed(m) => {
                        self.phase = ExportPhase::CleanupAfterFailure;
                        self.pending = Some(EncoderError::SpawnFailure(m));
                    },
                    StepOutcome::FsFailed(m) => {
                        self.phase = ExportPhase::CleanupAfterFailure;
                        self.pending = Some(EncoderError::FilesystemFailure(m));
                    },
                }
            },
            ExportPhase::CleanupAfterSuccess => {
                self.phase = ExportPhase::Finished;
                self.outcome = Some(Ok(self.output_path.clone()));
                match ev {
                    StepOutcome::Completed => {
                        self.fsops = Ghost(
                            self.fsops@.push(FsOp::DirRemoved(self.temp_dir@, true)),
                        );
                    },
                    StepOutcome::ToolFailed(m) | StepOutcome::LaunchFailed(m)
                        | StepOutcome::FsFailed(m) => {
                        self.fsops = Ghost(
                            self.fsops@.push(FsOp::DirRemoved(self.temp_dir@, false)),
                        );
                        self.warning = Some(m);
                    },
                }
            },
            ExportPhase::CleanupAfterFailure => {
                let e = match &self.pending {
                    Some(e) => e.clone(),
                    None => {
                        proof {
                            assert(false);
                        }
                        EncoderError::BinaryUnavailable
                    },
                };
                self.fsops = Ghost(
                    self.fsops@.push(
                        FsOp::DirRemoved(self.temp_dir@, matches!(ev, StepOutcome::Completed)),
                    ),
                );
                self.phase = ExportPhase::Finished;
                self.outcome = Some(Err(e));
            },
            ExportPhase::Finished => {
                proof {
                    assert(false);
                }
            },
        }
    }

    /// Hands the final result out; the export must be over.
    pub fn into_outcome(self) -> (r: Result<String, EncoderError>)
        requires
            self.inv(),
            self.spec_done(),
        ensures
            Some(r) == self.outcome,
    {
        match self.outcome {
            Some(r) => r,
            None => {
                proof {
                    assert(false);
                }
                Err(EncoderError::BinaryUnavailable)
            },
        }
    }

    /// The cleanup warning of a successful export, if any.
    pub fn cleanup_warning(&self) -> (w: &Option<String>)
        ensures
            *w == self.warning,
    {
        &self.warning
    }
}

/// An export of a single clip asks for no filesystem operation at all:
/// no temporary directory is ever created for it.
pub proof fn lemma_single_clip_touches_no_filesystem(m: ExportMachine)
    requires
        m.inv(),
        m.clips@.len() == 1,
    ensures
        m.fsops@ == Seq::<FsOp>::empty(),
{
}

/// When the concat pass is about to run, exactly one trim has run for
/// each clip, in input order, each with the trim arguments of its clip.
pub proof fn lemma_concat_runs_after_all_trims(m: ExportMachine)
    requires
        m.inv(),
        m.phase is ConcatRun,
    ensures
        m.runs@.len() == m.clips@.len(),
        forall|i: int|
            0 <= i < m.clips@.len() ==> m.runs@[i] == spec_trim_args(
                m.clips@[i],
                spec_trim_path(m.temp_dir@, i as nat),
            ),
{
}

/// Once failure cleanup is reached, the one remaining step runs no
/// encoder, finishes the export, and surfaces the original error — the
/// outcome of the cleanup attempt itself changes nothing.
pub proof fn lemma_failure_aborts_pipeline(pre: ExportMachine, ev: StepOutcome, post: ExportMachine)
    requires
        pre.inv(),
        pre.phase is CleanupAfterFailure,
        ExportMachine::steps_to(pre, ev, post),
    ensures
        post.spec_done(),
        post.runs@ == pre.runs@,
        (match pre.pending {
            Some(e) => post.outcome == Some(Result::<String, EncoderError>::Err(e)),
            None => false,
        }),
{
}

/// A successful export ran exactly the advertised encoder commands: the
/// one-pass command for a single clip; for several, one trim per clip
/// in input order and then the concat pass, and nothing else.
pub proof fn lemma_success_ran_exact_commands(m: ExportMachine)
    requires
        m.inv(),
        m.spec_done(),
        m.outcome matches Some(Ok(_)),
    ensures
        m.clips@.len() == 1 ==> m.runs@ == seq![
            spec_single_clip_args(m.clips@[0], m.output_path@, m.quality@),
        ],
        m.clips@.len() >= 2 ==> m.runs@ == m.trims_expected(m.clips@.len() as int).push(
            m.concat_run_expected(),
        ),
{
}

/// A finished export that ever created the working directory also asked
/// for its removal, as the last filesystem operation; and when it
/// succeeded without a cleanup warning, that removal went through.
pub proof fn lemma_cleanup_attempted(m: ExportMachine)
    requires
        m.inv(),
        m.spec_done(),
    ensures
        m.made_dir() ==> m.fsops@.len() >= 1 && (match m.fsops@.last() {
            FsOp::DirRemoved(d, _) => d == m.temp_dir@,
            _ => false,
        }),
        (m.made_dir() && m.warning is None && (match m.outcome {
            Some(Ok(_)) => true,
            _ => false,
        })) ==> m.fsops@.last() == FsOp::DirRemoved(m.temp_dir@, true),
{
}

} // verus!
