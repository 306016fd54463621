//! The image mutation pipeline as a state machine. A run is planned once
//! (every path it will touch is fixed up front), then driven one step at a
//! time: the driver asks for the next action, performs it, and reports
//! whether it succeeded. The staging directory is removed on every exit
//! after it was created, and nothing outside it is written before the
//! mutation has succeeded.
use vstd::prelude::*;
use crate::compression::{bytes_equal, codec_of_path, extension_bytes, Compression};
use crate::paths::{
    duplicate, file_name, file_name_of, is_valid_file_name, join, join_of,
    lemma_file_name_len, lemma_without_extension_len, sibling, sibling_of, valid_file_name,
    with_extension, with_extension_of, without_extension, without_extension_of,
};

verus! {

/// What kind of failure ended a run.
#[derive(Clone, Copy, Debug, PartialEq, Eq, Structural)]
pub enum ErrorKind {
    /// The source image does not exist.
    NotFound,
    /// The options or the source path cannot be used together.
    Precondition,
    /// Creating the staging directory, copying a file, or writing the block map failed.
    Io,
    /// Decompressing or compressing failed.
    Codec,
    /// The caller's mutation failed.
    Mutation,
}

/// The operation that was being attempted when a run failed.
#[derive(Clone, Copy, Debug, PartialEq, Eq, Structural)]
pub enum Operation {
    CheckOptions,
    CheckSource,
    CreateWorkspace,
    CopyIn,
    Decompress,
    Mutate,
    GenerateBmap,
    CopyBmap,
    Compress,
    CopyOut,
}

/// A failed run: what failed, while doing what, on which path.
#[derive(Debug)]
pub struct PipelineError {
    pub kind: ErrorKind,
    pub operation: Operation,
    pub path: Vec<u8>,
}

pub ghost struct ErrorView {
    pub kind: ErrorKind,
    pub operation: Operation,
    pub path: Seq<u8>,
}

impl View for PipelineError {
    type V = ErrorView;

    open spec fn view(&self) -> ErrorView {
        ErrorView { kind: self.kind, operation: self.operation, path: self.path@ }
    }
}

/// What the caller asks of a run besides the mutation itself.
#[derive(Clone, Copy, Debug, PartialEq, Eq, Structural)]
pub struct RunOptions {
    /// Write a block map of the mutated image beside the output.
    pub generate_bmap: bool,
    /// Compress the output with this codec; `None` writes a plain image.
    pub target_compression: Option<Compression>,
    /// The process runs in a containerized environment, where block maps
    /// cannot be generated.
    pub containerized: bool,
}

/// The steps of a run, in the order in which they can come.
#[derive(Clone, Copy, Debug, PartialEq, Eq, Structural)]
pub enum Stage {
    CreateWorkspace,
    CopyIn,
    Decompress,
    Mutate,
    GenerateBmap,
    CopyBmap,
    Compress,
    CopyOut,
    Cleanup,
    Finished,
}

/// `bmap`, the extension of a block map file.
pub open spec fn bmap_extension() -> Seq<u8> {
    seq![0x62u8, 0x6du8, 0x61u8, 0x70u8]
}

/// The source's file name.
pub open spec fn source_name(src: Seq<u8>) -> Seq<u8> {
    file_name_of(src)
}

/// The name of the plain image: the source's name, less the codec's
/// extension when the source is compressed.
pub open spec fn plain_name(src: Seq<u8>) -> Seq<u8> {
    if codec_of_path(src) is Some {
        without_extension_of(source_name(src))
    } else {
        source_name(src)
    }
}

/// The name of the output image: the plain name, with the target codec's
/// extension appended when one is asked for.
pub open spec fn output_name(src: Seq<u8>, target: Option<Compression>) -> Seq<u8> {
    match target {
        Some(c) => with_extension_of(plain_name(src), extension_bytes(c)),
        None => plain_name(src),
    }
}

/// Where the source is copied in the workspace.
pub open spec fn staged_copy_path(src: Seq<u8>, ws: Seq<u8>) -> Seq<u8> {
    join_of(ws, source_name(src))
}

/// The plain image in the workspace, which the mutation edits.
pub open spec fn staged_image_path(src: Seq<u8>, ws: Seq<u8>) -> Seq<u8> {
    join_of(ws, plain_name(src))
}

/// The block map that the generator writes beside the staged image.
pub open spec fn staged_bmap_path(src: Seq<u8>, ws: Seq<u8>) -> Seq<u8> {
    with_extension_of(staged_image_path(src, ws), bmap_extension())
}

/// Where the block map is delivered: beside the source, named after the
/// plain image.
pub open spec fn dest_bmap_path(src: Seq<u8>) -> Seq<u8> {
    sibling_of(src, with_extension_of(plain_name(src), bmap_extension()))
}

/// The output image in the workspace, compressed when asked.
pub open spec fn staged_output_path(src: Seq<u8>, ws: Seq<u8>, target: Option<Compression>) -> Seq<u8> {
    join_of(ws, output_name(src, target))
}

/// Where the output image is delivered: beside the source.
pub open spec fn dest_path(src: Seq<u8>, target: Option<Compression>) -> Seq<u8> {
    sibling_of(src, output_name(src, target))
}

/// All paths of a run fit in memory.
pub open spec fn paths_fit(src: Seq<u8>, ws: Seq<u8>) -> bool {
    src.len() + ws.len() + 16 <= usize::MAX
}

/// Every path that a run touches, computed once from the source, the
/// workspace and the options.
pub struct Plan {
    pub source: Vec<u8>,
    pub workspace: Vec<u8>,
    pub options: RunOptions,
    pub source_compression: Option<Compression>,
    pub staged_copy: Vec<u8>,
    pub staged_image: Vec<u8>,
    pub staged_bmap: Vec<u8>,
    pub dest_bmap: Vec<u8>,
    pub staged_output: Vec<u8>,
    pub dest: Vec<u8>,
}

impl Plan {
    pub open spec fn wf(&self) -> bool {
        let (s, w, t) = (self.source@, self.workspace@, self.options.target_compression);
        &&& paths_fit(s, w)
        &&& is_valid_file_name(source_name(s))
        &&& self.source_compression == codec_of_path(s)
        &&& self.staged_copy@ == staged_copy_path(s, w)
        &&& self.staged_image@ == staged_image_path(s, w)
        &&& self.staged_bmap@ == staged_bmap_path(s, w)
        &&& self.dest_bmap@ == dest_bmap_path(s)
        &&& self.staged_output@ == staged_output_path(s, w, t)
        &&& self.dest@ == dest_path(s, t)
    }
}

/// A run in progress: its plan, the step it is at, and the failure that
/// ended it, if one did.
pub struct Run {
    pub plan: Plan,
    pub stage: Stage,
    pub failure: Option<PipelineError>,
}

pub ghost struct RunView {
    pub source: Seq<u8>,
    pub workspace: Seq<u8>,
    pub options: RunOptions,
    pub stage: Stage,
    pub failure: Option<ErrorView>,
}

impl View for Run {
    type V = RunView;

    open spec fn view(&self) -> RunView {
        RunView {
            source: self.plan.source@,
            workspace: self.plan.workspace@,
            options: self.plan.options,
            stage: self.stage,
            failure: match self.failure {
                Some(e) => Some(e@),
                None => None,
            },
        }
    }
}

/// One thing for the driver to do.
pub enum Action {
    /// Create the staging directory.
    CreateDir { path: Vec<u8> },
    /// Copy a file, keeping its holes.
    SparseCopy { from: Vec<u8>, to: Vec<u8> },
    /// Decompress `from` into `to`.
    Decompress { from: Vec<u8>, to: Vec<u8>, codec: Compression },
    /// Run the caller's mutation on the staged plain image.
    Mutate { path: Vec<u8> },
    /// Generate the block map `bmap` of `image`.
    GenerateBmap { image: Vec<u8>, bmap: Vec<u8> },
    /// Compress `from` into `to`.
    Compress { from: Vec<u8>, to: Vec<u8>, codec: Compression },
    /// Remove the staging directory and all it holds.
    RemoveDir { path: Vec<u8> },
    /// The run is over, with this failure or none.
    Finish { failure: Option<PipelineError> },
}

pub ghost enum ActionView {
    CreateDir { path: Seq<u8> },
    SparseCopy { from: Seq<u8>, to: Seq<u8> },
    Decompress { from: Seq<u8>, to: Seq<u8>, codec: Compression },
    Mutate { path: Seq<u8> },
    GenerateBmap { image: Seq<u8>, bmap: Seq<u8> },
    Compress { from: Seq<u8>, to: Seq<u8>, codec: Compression },
    RemoveDir { path: Seq<u8> },
    Finish { failure: Option<ErrorView> },
}

impl View for Action {
    type V = ActionView;

    open spec fn view(&self) -> ActionView {
        match self {
            Action::CreateDir { path } => ActionView::CreateDir { path: path@ },
            Action::SparseCopy { from, to } => ActionView::SparseCopy { from: from@, to: to@ },
            Action::Decompress { from, to, codec } => ActionView::Decompress {
                from: from@,
                to: to@,
                codec: *codec,
            },
            Action::Mutate { path } => ActionView::Mutate { path: path@ },
            Action::GenerateBmap { image, bmap } => ActionView::GenerateBmap {
                image: image@,
                bmap: bmap@,
            },
            Action::Compress { from, to, codec } => ActionView::Compress {
                from: from@,
                to: to@,
                codec: *codec,
            },
            Action::RemoveDir { path } => ActionView::RemoveDir { path: path@ },
            Action::Finish { failure } => ActionView::Finish {
                failure: match failure {
                    Some(e) => Some(e@),
                    None => None,
                },
            },
        }
    }
}

/// The steps during which the staging directory exists and the run has not
/// failed.
pub open spec fn holds_workspace(s: Stage) -> bool {
    match s {
        Stage::CopyIn | Stage::Decompress | Stage::Mutate | Stage::GenerateBmap
        | Stage::CopyBmap | Stage::Compress | Stage::CopyOut => true,
        _ => false,
    }
}

/// The steps whose failure ends the run.
pub open spec fn is_working(s: Stage) -> bool {
    s == Stage::CreateWorkspace || holds_workspace(s)
}

/// The step after the block map is delivered (or was not asked for).
pub open spec fn stage_after_bmap(o: RunOptions) -> Stage {
    if o.target_compression is Some {
        Stage::Compress
    } else {
        Stage::CopyOut
    }
}

/// The step after a successful mutation.
pub open spec fn stage_after_mutation(o: RunOptions) -> Stage {
    if o.generate_bmap {
        Stage::GenerateBmap
    } else {
        stage_after_bmap(o)
    }
}

/// The step that follows `s` when its action succeeded (`ok`) or failed.
/// A failure after the workspace exists leads to cleanup; removal of the
/// workspace ends the run whether or not it succeeded.
pub open spec fn next_stage(s: Stage, compressed: bool, o: RunOptions, ok: bool) -> Stage {
    match s {
        Stage::CreateWorkspace => if ok { Stage::CopyIn } else { Stage::Finished },
        Stage::CopyIn => if !ok {
            Stage::Cleanup
        } else if compressed {
            Stage::Decompress
        } else {
            Stage::Mutate
        },
        Stage::Decompress => if ok { Stage::Mutate } else { Stage::Cleanup },
        Stage::Mutate => if ok { stage_after_mutation(o) } else { Stage::Cleanup },
        Stage::GenerateBmap => if ok { Stage::CopyBmap } else { Stage::Cleanup },
        Stage::CopyBmap => if ok { stage_after_bmap(o) } else { Stage::Cleanup },
        Stage::Compress => if ok { Stage::CopyOut } else { Stage::Cleanup },
        Stage::CopyOut => Stage::Cleanup,
        Stage::Cleanup => Stage::Finished,
        Stage::Finished => Stage::Finished,
    }
}

/// The kind of failure of each step.
pub open spec fn failure_kind(s: Stage) -> ErrorKind {
    match s {
        Stage::Decompress | Stage::Compress => ErrorKind::Codec,
        Stage::Mutate => ErrorKind::Mutation,
        _ => ErrorKind::Io,
    }
}

/// The operation of each step.
pub open spec fn operation_of(s: Stage) -> Operation {
    match s {
        Stage::CreateWorkspace => Operation::CreateWorkspace,
        Stage::CopyIn => Operation::CopyIn,
        Stage::Decompress => Operation::Decompress,
        Stage::Mutate => Operation::Mutate,
        Stage::GenerateBmap => Operation::GenerateBmap,
        Stage::CopyBmap => Operation::CopyBmap,
        Stage::Compress => Operation::Compress,
        _ => Operation::CopyOut,
    }
}

/// The path that a failure of each step names.
pub open spec fn operand_of(v: RunView) -> Seq<u8> {
    let (s, w, t) = (v.source, v.workspace, v.options.target_compression);
    match v.stage {
        Stage::CreateWorkspace => w,
        Stage::CopyIn => s,
        Stage::Decompress => staged_copy_path(s, w),
        Stage::Mutate | Stage::GenerateBmap | Stage::Compress => staged_image_path(s, w),
        Stage::CopyBmap => dest_bmap_path(s),
        _ => dest_path(s, t),
    }
}

/// The failure of the current step.
pub open spec fn failure_at(v: RunView) -> ErrorView {
    ErrorView { kind: failure_kind(v.stage), operation: operation_of(v.stage), path: operand_of(v) }
}

/// The run after the current action succeeded (`ok`) or failed.
pub open spec fn step(v: RunView, ok: bool) -> RunView {
    RunView {
        stage: next_stage(v.stage, codec_of_path(v.source) is Some, v.options, ok),
        failure: if !ok && is_working(v.stage) {
            Some(failure_at(v))
        } else {
            v.failure
        },
        ..v
    }
}

/// The action that a run at its current step asks for.
pub open spec fn action_of(v: RunView) -> ActionView {
    let (s, w, t) = (v.source, v.workspace, v.options.target_compression);
    match v.stage {
        Stage::CreateWorkspace => ActionView::CreateDir { path: w },
        Stage::CopyIn => ActionView::SparseCopy { from: s, to: staged_copy_path(s, w) },
        Stage::Decompress => ActionView::Decompress {
            from: staged_copy_path(s, w),
            to: staged_image_path(s, w),
            codec: codec_of_path(s)->0,
        },
        Stage::Mutate => ActionView::Mutate { path: staged_image_path(s, w) },
        Stage::GenerateBmap => ActionView::GenerateBmap {
            image: staged_image_path(s, w),
            bmap: staged_bmap_path(s, w),
        },
        Stage::CopyBmap => ActionView::SparseCopy {
            from: staged_bmap_path(s, w),
            to: dest_bmap_path(s),
        },
        Stage::Compress => ActionView::Compress {
            from: staged_image_path(s, w),
            to: staged_output_path(s, w, t),
            codec: t->0,
        },
        Stage::CopyOut => ActionView::SparseCopy {
            from: staged_output_path(s, w, t),
            to: dest_path(s, t),
        },
        Stage::Cleanup => ActionView::RemoveDir { path: w },
        Stage::Finished => ActionView::Finish { failure: v.failure },
    }
}

/// The states that a run can be in: each step is reached only when the
/// options and the source call for it, and a failure is recorded exactly
/// once the run has stopped working.
pub open spec fn reachable(v: RunView) -> bool {
    &&& v.stage == Stage::Decompress ==> codec_of_path(v.source) is Some
    &&& (v.stage == Stage::GenerateBmap || v.stage == Stage::CopyBmap) ==> v.options.generate_bmap
    &&& v.stage == Stage::Compress ==> v.options.target_compression is Some
    &&& is_working(v.stage) ==> v.failure is None
}

/// The outcome of checking a request before anything is touched.
pub open spec fn start_error(src: Seq<u8>, o: RunOptions, source_exists: bool) -> Option<ErrorView> {
    if o.containerized && o.generate_bmap {
        Some(ErrorView { kind: ErrorKind::Precondition, operation: Operation::CheckOptions, path: src })
    } else if !source_exists {
        Some(ErrorView { kind: ErrorKind::NotFound, operation: Operation::CheckSource, path: src })
    } else if !is_valid_file_name(source_name(src)) {
        Some(ErrorView { kind: ErrorKind::Precondition, operation: Operation::CheckSource, path: src })
    } else {
        None
    }
}

} // verus!

verus! {

impl Stage {
    pub fn failure_kind(&self) -> (r: ErrorKind)
        ensures
            r == failure_kind(*self),
    {
        match self {
            Stage::Decompress | Stage::Compress => ErrorKind::Codec,
            Stage::Mutate => ErrorKind::Mutation,
            _ => ErrorKind::Io,
        }
    }

    pub fn operation(&self) -> (r: Operation)
        ensures
            r == operation_of(*self),
    {
        match self {
            Stage::CreateWorkspace => Operation::CreateWorkspace,
            Stage::CopyIn => Operation::CopyIn,
            Stage::Decompress => Operation::Decompress,
            Stage::Mutate => Operation::Mutate,
            Stage::GenerateBmap => Operation::GenerateBmap,
            Stage::CopyBmap => Operation::CopyBmap,
            Stage::Compress => Operation::Compress,
            _ => Operation::CopyOut,
        }
    }
}

/// The values of the environment signal that mean a containerized
/// environment: `true` and `1`.
pub open spec fn means_containerized(value: Seq<u8>) -> bool {
    value == seq![0x74u8, 0x72u8, 0x75u8, 0x65u8] || value == seq![0x31u8]
}

/// Reads the containerized-environment signal from the variable's value,
/// if it is set.
pub fn containerized_signal(value: Option<Vec<u8>>) -> (r: bool)
    ensures
        r == (value is Some && means_containerized(value->0@)),
{
    match value {
        Some(v) => {
            let yes = vec![0x74u8, 0x72u8, 0x75u8, 0x65u8];
            let one = vec![0x31u8];
            assert(yes@ =~= seq![0x74u8, 0x72u8, 0x75u8, 0x65u8]);
            assert(one@ =~= seq![0x31u8]);
            bytes_equal(&v, &yes) || bytes_equal(&v, &one)
        },
        None => false,
    }
}

fn bmap_ext() -> (r: Vec<u8>)
    ensures
        r@ == bmap_extension(),
{
    let r = vec![0x62u8, 0x6du8, 0x61u8, 0x70u8];
    assert(r@ =~= bmap_extension());
    r
}

fn check_error(kind: ErrorKind, operation: Operation, source: &Vec<u8>) -> (r: PipelineError)
    ensures
        r@ == (ErrorView { kind, operation, path: source@ }),
{
    PipelineError { kind, operation, path: duplicate(source) }
}

/// Checks a request and plans its run, before anything is touched.
///
/// Fails with `Precondition` when a block map is asked for in a
/// containerized environment; then with `NotFound`, naming the source, when
/// the source does not exist; then with `Precondition` when the source path
/// has no usable file name. Otherwise the run is planned and starts by
/// creating the workspace.
pub fn start(source: Vec<u8>, workspace: Vec<u8>, options: RunOptions, source_exists: bool) -> (r: Result<Run, PipelineError>)
    requires
        paths_fit(source@, workspace@),
    ensures
        match r {
            Ok(run) => {
                &&& start_error(source@, options, source_exists) is None
                &&& run.wf()
                &&& run@ == (RunView {
                    source: source@,
                    workspace: workspace@,
                    options,
                    stage: Stage::CreateWorkspace,
                    failure: None,
                })
            },
            Err(e) => start_error(source@, options, source_exists) == Some(e@),
        },
{
    if options.containerized && options.generate_bmap {
        return Err(check_error(ErrorKind::Precondition, Operation::CheckOptions, &source));
    }
    if !source_exists {
        return Err(check_error(ErrorKind::NotFound, Operation::CheckSource, &source));
    }
    let name = file_name(&source);
    if !valid_file_name(&name) {
        return Err(check_error(ErrorKind::Precondition, Operation::CheckSource, &source));
    }
    proof {
        lemma_file_name_len(source@);
        lemma_without_extension_len(name@);
    }
    let codec = Compression::from_file(&source);
    let plain = match codec {
        Some(_) => without_extension(&name),
        None => duplicate(&name),
    };
    let output = match options.target_compression {
        Some(c) => with_extension(&plain, &c.extension()),
        None => duplicate(&plain),
    };
    let staged_copy = join(&workspace, &name);
    let staged_image = join(&workspace, &plain);
    let staged_bmap = with_extension(&staged_image, &bmap_ext());
    let dest_bmap = sibling(&source, &with_extension(&plain, &bmap_ext()));
    let staged_output = join(&workspace, &output);
    let dest = sibling(&source, &output);
    let plan = Plan {
        source,
        workspace,
        options,
        source_compression: codec,
        staged_copy,
        staged_image,
        staged_bmap,
        dest_bmap,
        staged_output,
        dest,
    };
    Ok(Run { plan, stage: Stage::CreateWorkspace, failure: None })
}

impl Run {
    pub open spec fn wf(&self) -> bool {
        &&& self.plan.wf()
        &&& reachable(self@)
    }

    /// Whether the run is over.
    pub fn is_finished(&self) -> (r: bool)
        ensures
            r == (self.stage == Stage::Finished),
    {
        match self.stage {
            Stage::Finished => true,
            _ => false,
        }
    }

    /// The action that the run asks for at its current step.
    pub fn next_action(&self) -> (a: Action)
        requires
            self.wf(),
        ensures
            a@ == action_of(self@),
    {
        let p = &self.plan;
        match self.stage {
            Stage::CreateWorkspace => Action::CreateDir { path: duplicate(&p.workspace) },
            Stage::CopyIn => Action::SparseCopy {
                from: duplicate(&p.source),
                to: duplicate(&p.staged_copy),
            },
            Stage::Decompress => {
                let codec = match p.source_compression {
                    Some(c) => c,
                    None => Compression::Gzip,
                };
                Action::Decompress {
                    from: duplicate(&p.staged_copy),
                    to: duplicate(&p.staged_image),
                    codec,
                }
            },
            Stage::Mutate => Action::Mutate { path: duplicate(&p.staged_image) },
            Stage::GenerateBmap => Action::GenerateBmap {
                image: duplicate(&p.staged_image),
                bmap: duplicate(&p.staged_bmap),
            },
            Stage::CopyBmap => Action::SparseCopy {
                from: duplicate(&p.staged_bmap),
                to: duplicate(&p.dest_bmap),
            },
            Stage::Compress => {
                let codec = match p.options.target_compression {
                    Some(c) => c,
                    None => Compression::Gzip,
                };
                Action::Compress {
                    from: duplicate(&p.staged_image),
                    to: duplicate(&p.staged_output),
                    codec,
                }
            },
            Stage::CopyOut => Action::SparseCopy {
                from: duplicate(&p.staged_output),
                to: duplicate(&p.dest),
            },
            Stage::Cleanup => Action::RemoveDir { path: duplicate(&p.workspace) },
            Stage::Finished => Action::Finish {
                failure: match &self.failure {
                    Some(e) => Some(
                        PipelineError { kind: e.kind, operation: e.operation, path: duplicate(&e.path) },
                    ),
                    None => None,
                },
            },
        }
    }

    /// Records the outcome of the current action and moves to the next step.
    /// A failure is recorded with the step's operation and operand; the
    /// outcome of removing the workspace does not change the run's result.
    pub fn advance(&mut self, ok: bool)
        requires
            old(self).wf(),
        ensures
            final(self).wf(),
            final(self)@ == step(old(self)@, ok),
    {
        let working = match self.stage {
            Stage::Cleanup | Stage::Finished => false,
            _ => true,
        };
        if !ok && working {
            let p = &self.plan;
            let path = match self.stage {
                Stage::CreateWorkspace => duplicate(&p.workspace),
                Stage::CopyIn => duplicate(&p.source),
                Stage::Decompress => duplicate(&p.staged_copy),
                Stage::Mutate | Stage::GenerateBmap | Stage::Compress => duplicate(&p.staged_image),
                Stage::CopyBmap => duplicate(&p.dest_bmap),
                _ => duplicate(&p.dest),
            };
            self.failure = Some(
                PipelineError { kind: self.stage.failure_kind(), operation: self.stage.operation(), path },
            );
        }
        let compressed = self.plan.source_compression.is_some();
        let o = self.plan.options;
        self.stage = match self.stage {
            Stage::CreateWorkspace => if ok { Stage::CopyIn } else { Stage::Finished },
            Stage::CopyIn => if !ok {
                Stage::Cleanup
            } else if compressed {
                Stage::Decompress
            } else {
                Stage::Mutate
            },
            Stage::Decompress => if ok { Stage::Mutate } else { Stage::Cleanup },
            Stage::Mutate => if !ok {
                Stage::Cleanup
            } else if o.generate_bmap {
                Stage::GenerateBmap
            } else if o.target_compression.is_some() {
                Stage::Compress
            } else {
                Stage::CopyOut
            },
            Stage::GenerateBmap => if ok { Stage::CopyBmap } else { Stage::Cleanup },
            Stage::CopyBmap => if !ok {
                Stage::Cleanup
            } else if o.target_compression.is_some() {
                Stage::Compress
            } else {
                Stage::CopyOut
            },
            Stage::Compress => if ok { Stage::CopyOut } else { Stage::Cleanup },
            Stage::CopyOut => Stage::Cleanup,
            Stage::Cleanup => Stage::Finished,
            Stage::Finished => Stage::Finished,
        };
    }
}

} // verus!
