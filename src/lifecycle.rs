//! What holds of every run, whatever its actions' outcomes: it ends, it
//! removes its workspace on every exit after creating it, and a failed
//! mutation is followed by nothing but cleanup.
use vstd::prelude::*;
use crate::compression::{
    codec_of_extension, codec_of_name, codec_of_path, extension_bytes, lemma_extension_has_no_dot,
    lemma_rejoin_extension, lemma_split_appended, Compression,
};
use crate::paths::{
    dir_prefix_of, extension_of, file_name_of, has_extension, join_of, lemma_file_name_len,
    lemma_last_index_of, with_extension_of, DOT, SEP,
};
use crate::pipeline::{
    action_of, bmap_extension, dest_bmap_path, dest_path, holds_workspace, output_name,
    plain_name, reachable, staged_image_path, step, ActionView, ErrorKind, ErrorView, Operation,
    RunView, Stage,
};

verus! {

/// The run after its actions had the outcomes `events`, in order.
pub open spec fn run_after(v: RunView, events: Seq<bool>) -> RunView
    decreases events.len(),
{
    if events.len() == 0 {
        v
    } else {
        step(run_after(v, events.drop_last()), events.last())
    }
}

/// How many steps a run at `s` has left at most.
pub open spec fn steps_left(s: Stage) -> nat {
    match s {
        Stage::CreateWorkspace => 9,
        Stage::CopyIn => 8,
        Stage::Decompress => 7,
        Stage::Mutate => 6,
        Stage::GenerateBmap => 5,
        Stage::CopyBmap => 4,
        Stage::Compress => 3,
        Stage::CopyOut => 2,
        Stage::Cleanup => 1,
        Stage::Finished => 0,
    }
}

/// A run keeps its source, workspace and options, and a reachable run stays
/// reachable whatever the outcomes of its actions.
pub proof fn lemma_run_after_keeps(v: RunView, events: Seq<bool>)
    ensures
        run_after(v, events).source == v.source,
        run_after(v, events).workspace == v.workspace,
        run_after(v, events).options == v.options,
        reachable(v) ==> reachable(run_after(v, events)),
    decreases events.len(),
{
    if events.len() > 0 {
        lemma_run_after_keeps(v, events.drop_last());
    }
}

/// Every step brings a run closer to its end.
pub proof fn lemma_steps_left(v: RunView, events: Seq<bool>)
    ensures
        steps_left(run_after(v, events).stage) + events.len() <= steps_left(v.stage)
            || run_after(v, events).stage == Stage::Finished,
    decreases events.len(),
{
    if events.len() > 0 {
        lemma_steps_left(v, events.drop_last());
    }
}

/// Every run ends: after ten outcomes, whichever they are, it is finished.
pub proof fn lemma_run_finishes(v: RunView, events: Seq<bool>)
    requires
        events.len() >= 10,
    ensures
        run_after(v, events).stage == Stage::Finished,
{
    lemma_steps_left(v, events);
}

/// A run that has created its workspace holds it until cleanup: it only
/// moves between steps that hold the workspace, cleanup, and the end; and
/// whenever it has finished, it has on its way asked for the removal of
/// that workspace.
pub proof fn lemma_workspace_removed_on_every_exit(v: RunView, events: Seq<bool>)
    requires
        holds_workspace(v.stage),
    ensures
        holds_workspace(run_after(v, events).stage) || run_after(v, events).stage
            == Stage::Cleanup || run_after(v, events).stage == Stage::Finished,
        run_after(v, events).stage == Stage::Finished ==> exists|i: int|
            0 <= i < events.len() && action_of(#[trigger] run_after(v, events.take(i)))
                == (ActionView::RemoveDir { path: v.workspace }),
    decreases events.len(),
{
    if events.len() > 0 {
        let prev = events.drop_last();
        lemma_workspace_removed_on_every_exit(v, prev);
        lemma_run_after_keeps(v, prev);
        let u = run_after(v, prev);
        assert(events.take(events.len() - 1) =~= prev);
        if run_after(v, events).stage == Stage::Finished {
            if u.stage == Stage::Cleanup {
                let i = events.len() - 1;
                assert(action_of(run_after(v, events.take(i))) == (ActionView::RemoveDir { path: v.workspace }));
            } else {
                assert(u.stage == Stage::Finished);
                let i = choose|i: int|
                    0 <= i < prev.len() && action_of(#[trigger] run_after(v, prev.take(i)))
                        == (ActionView::RemoveDir { path: v.workspace });
                assert(prev.take(i) =~= events.take(i));
            }
        }
    }
}

/// When the mutation fails, the run records a mutation failure that names
/// the staged image; then it asks only for the removal of its workspace and
/// then ends with that failure, whatever the later outcomes: no block map
/// and no output are written.
pub proof fn lemma_failed_mutation_writes_nothing(v: RunView, events: Seq<bool>)
    requires
        reachable(v),
        v.stage == Stage::Mutate,
    ensures
        step(v, false).failure == Some(
            ErrorView {
                kind: ErrorKind::Mutation,
                operation: Operation::Mutate,
                path: staged_image_path(v.source, v.workspace),
            },
        ),
        events.len() == 0 ==> action_of(run_after(step(v, false), events))
            == (ActionView::RemoveDir { path: v.workspace }),
        events.len() > 0 ==> action_of(run_after(step(v, false), events))
            == (ActionView::Finish { failure: step(v, false).failure }),
    decreases events.len(),
{
    if events.len() > 0 {
        lemma_failed_mutation_writes_nothing(v, events.drop_last());
        lemma_run_after_keeps(step(v, false), events.drop_last());
    }
}

/// The path that an action writes, creates or removes, if any.
pub open spec fn written_path(a: ActionView) -> Option<Seq<u8>> {
    match a {
        ActionView::CreateDir { path } => Some(path),
        ActionView::SparseCopy { from, to } => Some(to),
        ActionView::Decompress { from, to, codec } => Some(to),
        ActionView::Mutate { path } => Some(path),
        ActionView::GenerateBmap { image, bmap } => Some(bmap),
        ActionView::Compress { from, to, codec } => Some(to),
        ActionView::RemoveDir { path } => Some(path),
        ActionView::Finish { failure } => None,
    }
}

/// `p` lies inside the directory `dir`.
pub open spec fn is_inside(p: Seq<u8>, dir: Seq<u8>) -> bool {
    &&& p.len() > dir.len()
    &&& p.subrange(0, dir.len() as int) == dir
    &&& p[dir.len() as int] == SEP
}

proof fn lemma_joined_is_inside(dir: Seq<u8>, name: Seq<u8>, tail: Seq<u8>)
    ensures
        is_inside(join_of(dir, name) + tail, dir),
{
    let p = join_of(dir, name) + tail;
    assert(p.subrange(0, dir.len() as int) =~= dir);
    assert(p[dir.len() as int] == SEP);
}

proof fn lemma_cancel_prefix(d: Seq<u8>, a: Seq<u8>, b: Seq<u8>)
    requires
        d + a == d + b,
    ensures
        a == b,
{
    assert(a =~= (d + a).subrange(d.len() as int, (d + a).len() as int));
    assert(b =~= (d + b).subrange(d.len() as int, (d + b).len() as int));
}

proof fn lemma_extensions_distinct(c: Compression, d: Compression)
    ensures
        extension_bytes(c) == extension_bytes(d) ==> c == d,
        codec_of_extension(extension_bytes(c)) == Some(c),
        codec_of_extension(bmap_extension()) is None,
{
    assert(extension_bytes(Compression::Gzip) != extension_bytes(Compression::Xz));
    assert(extension_bytes(Compression::Gzip) != extension_bytes(Compression::Bzip2));
    assert(extension_bytes(Compression::Xz) != extension_bytes(Compression::Zstd));
    assert(extension_bytes(Compression::Gzip) != extension_bytes(Compression::Zstd));
    assert(extension_bytes(Compression::Xz) != extension_bytes(Compression::Bzip2));
    assert(extension_bytes(Compression::Bzip2)[0] != extension_bytes(Compression::Zstd)[0]);
    assert(bmap_extension().len() == 4);
}

/// The name of a compressed source is its plain name, a dot and the
/// codec's extension.
proof fn lemma_compressed_source_name(src: Seq<u8>)
    requires
        codec_of_path(src) is Some,
    ensures
        file_name_of(src) == with_extension_of(
            plain_name(src),
            extension_bytes(codec_of_path(src)->0),
        ),
        plain_name(src).len() > 0,
{
    let n = file_name_of(src);
    let d = codec_of_path(src)->0;
    assert(has_extension(n));
    lemma_last_index_of(n, DOT);
    lemma_extensions_distinct(d, d);
    assert(extension_of(n) == extension_bytes(d)) by {
        lemma_extensions_distinct(Compression::Gzip, d);
        lemma_extensions_distinct(Compression::Xz, d);
        lemma_extensions_distinct(Compression::Bzip2, d);
        lemma_extensions_distinct(Compression::Zstd, d);
    }
    lemma_rejoin_extension(n);
}

/// The output lands on the source's own path exactly when the output is to
/// carry the source's own compression (both plain, or both with one codec).
pub proof fn lemma_output_replaces_source_iff(src: Seq<u8>, t: Option<Compression>)
    ensures
        dest_path(src, t) == src <==> codec_of_path(src) == t,
{
    lemma_file_name_len(src);
    let n = file_name_of(src);
    let dir = dir_prefix_of(src);
    if dest_path(src, t) == src {
        lemma_cancel_prefix(dir, output_name(src, t), n);
        match codec_of_path(src) {
            Some(d) => {
                lemma_compressed_source_name(src);
                match t {
                    Some(c) => {
                        lemma_extension_has_no_dot(c);
                        lemma_extension_has_no_dot(d);
                        lemma_split_appended(plain_name(src), extension_bytes(c));
                        lemma_split_appended(plain_name(src), extension_bytes(d));
                        lemma_extensions_distinct(c, d);
                    },
                    None => {
                        assert(n.len() > plain_name(src).len());
                    },
                }
            },
            None => {
                match t {
                    Some(c) => {
                        assert(output_name(src, t).len() > n.len());
                    },
                    None => {},
                }
            },
        }
    }
    if codec_of_path(src) == t {
        match t {
            Some(c) => {
                lemma_compressed_source_name(src);
            },
            None => {},
        }
        assert(dest_path(src, t) == dir + n);
    }
}

/// The block map is never delivered onto the source's path.
pub proof fn lemma_bmap_not_on_source(src: Seq<u8>)
    ensures
        dest_bmap_path(src) != src,
{
    lemma_file_name_len(src);
    let n = file_name_of(src);
    let b = with_extension_of(plain_name(src), bmap_extension());
    if dest_bmap_path(src) == src {
        lemma_cancel_prefix(dir_prefix_of(src), b, n);
        match codec_of_path(src) {
            Some(d) => {
                lemma_compressed_source_name(src);
                lemma_extensions_distinct(d, d);
                assert(forall|j: int| 0 <= j < bmap_extension().len() ==> bmap_extension()[j] != DOT);
                lemma_split_appended(plain_name(src), bmap_extension());
                assert(codec_of_name(n) is None);
            },
            None => {
                assert(b.len() > n.len());
            },
        }
    }
}

/// The source image is only read. Of all the actions that a run asks for,
/// the only one that writes to the source's path is the delivery of the
/// output, and it does exactly when the output carries the source's own
/// compression, so that the output replaces the source. This holds for a
/// workspace that is neither the source nor a directory that holds it.
pub proof fn lemma_source_only_read(v: RunView)
    requires
        reachable(v),
        v.workspace != v.source,
        !is_inside(v.source, v.workspace),
    ensures
        written_path(action_of(v)) == Some(v.source) <==> (v.stage == Stage::CopyOut
            && codec_of_path(v.source) == v.options.target_compression),
{
    let (s, w, t) = (v.source, v.workspace, v.options.target_compression);
    lemma_output_replaces_source_iff(s, t);
    lemma_bmap_not_on_source(s);
    lemma_joined_is_inside(w, file_name_of(s), seq![]);
    lemma_joined_is_inside(w, plain_name(s), seq![]);
    lemma_joined_is_inside(w, output_name(s, t), seq![]);
    lemma_joined_is_inside(w, plain_name(s), seq![DOT] + bmap_extension());
    assert(join_of(w, file_name_of(s)) + seq![] == join_of(w, file_name_of(s)));
    assert(join_of(w, plain_name(s)) + seq![] == join_of(w, plain_name(s)));
    assert(join_of(w, output_name(s, t)) + seq![] == join_of(w, output_name(s, t)));
    assert(join_of(w, plain_name(s)) + (seq![DOT] + bmap_extension())
        == with_extension_of(join_of(w, plain_name(s)), bmap_extension()));
}

/// The steps after a successful mutation that deliver its results.
pub open spec fn delivers_output(s: Stage) -> bool {
    match s {
        Stage::GenerateBmap | Stage::CopyBmap | Stage::Compress | Stage::CopyOut => true,
        _ => false,
    }
}

/// The steps up to and including the mutation.
pub open spec fn before_mutation(s: Stage) -> bool {
    match s {
        Stage::CreateWorkspace | Stage::CopyIn | Stage::Decompress | Stage::Mutate => true,
        _ => false,
    }
}

/// Until the mutation has succeeded, a run writes only its workspace: the
/// directory itself or paths inside it.
pub proof fn lemma_staging_stays_in_workspace(v: RunView)
    requires
        before_mutation(v.stage),
    ensures
        written_path(action_of(v)) is Some,
        written_path(action_of(v))->0 == v.workspace || is_inside(
            written_path(action_of(v))->0,
            v.workspace,
        ),
{
    let (s, w) = (v.source, v.workspace);
    lemma_joined_is_inside(w, file_name_of(s), seq![]);
    lemma_joined_is_inside(w, plain_name(s), seq![]);
    assert(join_of(w, file_name_of(s)) + seq![] == join_of(w, file_name_of(s)));
    assert(join_of(w, plain_name(s)) + seq![] == join_of(w, plain_name(s)));
}

/// A run reaches a step that delivers output (the block map, the
/// compressed image, or the image) only after its mutation succeeded.
pub proof fn lemma_output_only_after_mutation(v: RunView, events: Seq<bool>)
    requires
        before_mutation(v.stage),
    ensures
        delivers_output(run_after(v, events).stage) ==> exists|j: int|
            0 <= j < events.len() && (#[trigger] run_after(v, events.take(j))).stage == Stage::Mutate
                && events[j],
        before_mutation(run_after(v, events).stage) || delivers_output(run_after(v, events).stage)
            || run_after(v, events).stage == Stage::Cleanup || run_after(v, events).stage
            == Stage::Finished,
    decreases events.len(),
{
    if events.len() > 0 {
        let prev = events.drop_last();
        lemma_output_only_after_mutation(v, prev);
        let u = run_after(v, prev);
        assert(events.take(events.len() - 1) =~= prev);
        if delivers_output(run_after(v, events).stage) {
            if delivers_output(u.stage) {
                let j = choose|j: int|
                    0 <= j < prev.len() && (#[trigger] run_after(v, prev.take(j))).stage
                        == Stage::Mutate && prev[j];
                assert(prev.take(j) =~= events.take(j));
                assert(events[j] == prev[j]);
            } else {
                let j = events.len() - 1;
                assert(u.stage == Stage::Mutate);
                assert(run_after(v, events.take(j)).stage == Stage::Mutate);
            }
        }
    }
}

} // verus!
