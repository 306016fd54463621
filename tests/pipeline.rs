use image_pipeline::compression::Compression;
use image_pipeline::pipeline::{
    containerized_signal, start, Action, ErrorKind, Operation, PipelineError, Run, RunOptions,
    Stage,
};

fn b(s: &str) -> Vec<u8> {
    s.as_bytes().to_vec()
}

fn text(v: &[u8]) -> String {
    String::from_utf8(v.to_vec()).unwrap()
}

fn describe(a: &Action) -> String {
    match a {
        Action::CreateDir { path } => format!("create {}", text(path)),
        Action::SparseCopy { from, to } => format!("copy {} -> {}", text(from), text(to)),
        Action::Decompress { from, to, codec } => {
            format!("decompress {:?} {} -> {}", codec, text(from), text(to))
        }
        Action::Mutate { path } => format!("mutate {}", text(path)),
        Action::GenerateBmap { image, bmap } => format!("bmap {} -> {}", text(image), text(bmap)),
        Action::Compress { from, to, codec } => {
            format!("compress {:?} {} -> {}", codec, text(from), text(to))
        }
        Action::RemoveDir { path } => format!("remove {}", text(path)),
        Action::Finish { failure } => match failure {
            None => "finish ok".to_string(),
            Some(e) => format!("finish {:?} {:?} {}", e.kind, e.operation, text(&e.path)),
        },
    }
}

/// Drives a run, answering each action with the next outcome (success once
/// the outcomes run out), and lists the actions asked for.
fn drive(mut run: Run, outcomes: &[bool]) -> Vec<String> {
    let mut seen = Vec::new();
    let mut i = 0;
    loop {
        let a = run.next_action();
        seen.push(describe(&a));
        if run.is_finished() {
            return seen;
        }
        let ok = if i < outcomes.len() { outcomes[i] } else { true };
        i += 1;
        run.advance(ok);
    }
}

fn opts(generate_bmap: bool, target: Option<Compression>, containerized: bool) -> RunOptions {
    RunOptions { generate_bmap, target_compression: target, containerized }
}

fn begin(source: &str, o: RunOptions) -> Run {
    start(b(source), b("/tmp/ws"), o, true).unwrap()
}

fn expect_err(r: Result<Run, PipelineError>) -> PipelineError {
    match r {
        Ok(_) => panic!("the run should not start"),
        Err(e) => e,
    }
}

#[test]
fn bmap_in_container_is_refused_before_anything() {
    let e = expect_err(start(b("/data/image.wic"), b("/tmp/ws"), opts(true, None, true), true));
    assert_eq!(e.kind, ErrorKind::Precondition);
    assert_eq!(e.operation, Operation::CheckOptions);
    assert_eq!(e.path, b("/data/image.wic"));
}

#[test]
fn container_without_bmap_is_accepted() {
    let run = begin("/data/image.wic", opts(false, None, true));
    assert_eq!(run.stage, Stage::CreateWorkspace);
}

#[test]
fn missing_source_is_not_found() {
    let e = expect_err(start(b("/data/nope.wic.gz"), b("/tmp/ws"), opts(false, None, false), false));
    assert_eq!(e.kind, ErrorKind::NotFound);
    assert_eq!(e.operation, Operation::CheckSource);
    assert_eq!(e.path, b("/data/nope.wic.gz"));
}

#[test]
fn source_without_file_name_is_refused() {
    let e = expect_err(start(b("/data/"), b("/tmp/ws"), opts(false, None, false), true));
    assert_eq!(e.kind, ErrorKind::Precondition);
    let e = expect_err(start(b("/data/.."), b("/tmp/ws"), opts(false, None, false), true));
    assert_eq!(e.kind, ErrorKind::Precondition);
}

#[test]
fn plain_image_is_copied_sparsely_in_and_out() {
    let run = begin("/data/image.wic", opts(false, None, false));
    assert_eq!(
        drive(run, &[]),
        vec![
            "create /tmp/ws",
            "copy /data/image.wic -> /tmp/ws/image.wic",
            "mutate /tmp/ws/image.wic",
            "copy /tmp/ws/image.wic -> /data/image.wic",
            "remove /tmp/ws",
            "finish ok",
        ]
    );
}

#[test]
fn gzip_source_recompressed_with_xz() {
    let run = begin("/data/image.wic.gz", opts(false, Some(Compression::Xz), false));
    assert_eq!(run.plan.dest, b("/data/image.wic.xz"));
    assert_eq!(
        drive(run, &[]),
        vec![
            "create /tmp/ws",
            "copy /data/image.wic.gz -> /tmp/ws/image.wic.gz",
            "decompress Gzip /tmp/ws/image.wic.gz -> /tmp/ws/image.wic",
            "mutate /tmp/ws/image.wic",
            "compress Xz /tmp/ws/image.wic -> /tmp/ws/image.wic.xz",
            "copy /tmp/ws/image.wic.xz -> /data/image.wic.xz",
            "remove /tmp/ws",
            "finish ok",
        ]
    );
}

#[test]
fn compressed_source_gives_plain_output() {
    let run = begin("image.wic.bz2", opts(false, None, false));
    assert_eq!(run.plan.dest, b("image.wic"));
    assert_eq!(run.plan.source_compression, Some(Compression::Bzip2));
}

#[test]
fn same_codec_output_replaces_source() {
    let run = begin("/data/image.wic.gz", opts(false, Some(Compression::Gzip), false));
    assert_eq!(run.plan.dest, b("/data/image.wic.gz"));
}

#[test]
fn bmap_is_generated_and_delivered_beside_the_image() {
    let run = begin("/data/image.wic.xz", opts(true, Some(Compression::Zstd), false));
    assert_eq!(
        drive(run, &[]),
        vec![
            "create /tmp/ws",
            "copy /data/image.wic.xz -> /tmp/ws/image.wic.xz",
            "decompress Xz /tmp/ws/image.wic.xz -> /tmp/ws/image.wic",
            "mutate /tmp/ws/image.wic",
            "bmap /tmp/ws/image.wic -> /tmp/ws/image.wic.bmap",
            "copy /tmp/ws/image.wic.bmap -> /data/image.wic.bmap",
            "compress Zstd /tmp/ws/image.wic -> /tmp/ws/image.wic.zst",
            "copy /tmp/ws/image.wic.zst -> /data/image.wic.zst",
            "remove /tmp/ws",
            "finish ok",
        ]
    );
}

#[test]
fn failed_mutation_writes_nothing_and_cleans_up() {
    let run = begin("/data/image.wic", opts(true, Some(Compression::Gzip), false));
    assert_eq!(
        drive(run, &[true, true, false]),
        vec![
            "create /tmp/ws",
            "copy /data/image.wic -> /tmp/ws/image.wic",
            "mutate /tmp/ws/image.wic",
            "remove /tmp/ws",
            "finish Mutation Mutate /tmp/ws/image.wic",
        ]
    );
}

#[test]
fn failed_workspace_creation_ends_without_cleanup() {
    let run = begin("/data/image.wic", opts(false, None, false));
    assert_eq!(
        drive(run, &[false]),
        vec!["create /tmp/ws", "finish Io CreateWorkspace /tmp/ws"]
    );
}

#[test]
fn failed_copy_in_is_io_and_cleans_up() {
    let run = begin("/data/image.wic", opts(false, None, false));
    assert_eq!(
        drive(run, &[true, false]),
        vec![
            "create /tmp/ws",
            "copy /data/image.wic -> /tmp/ws/image.wic",
            "remove /tmp/ws",
            "finish Io CopyIn /data/image.wic",
        ]
    );
}

#[test]
fn failed_decompression_is_codec_error() {
    let run = begin("/data/image.wic.gz", opts(false, None, false));
    let seen = drive(run, &[true, true, false]);
    assert_eq!(seen[3], "remove /tmp/ws");
    assert_eq!(seen[4], "finish Codec Decompress /tmp/ws/image.wic.gz");
}

#[test]
fn failed_compression_is_codec_error() {
    let run = begin("/data/image.wic", opts(false, Some(Compression::Xz), false));
    let seen = drive(run, &[true, true, true, false]);
    assert_eq!(seen[4], "remove /tmp/ws");
    assert_eq!(seen[5], "finish Codec Compress /tmp/ws/image.wic");
}

#[test]
fn failed_bmap_copy_names_the_destination() {
    let run = begin("/data/image.wic", opts(true, None, false));
    let seen = drive(run, &[true, true, true, true, false]);
    assert_eq!(seen[5], "remove /tmp/ws");
    assert_eq!(seen[6], "finish Io CopyBmap /data/image.wic.bmap");
}

#[test]
fn failed_copy_out_still_cleans_up() {
    let run = begin("/data/image.wic", opts(false, None, false));
    let seen = drive(run, &[true, true, true, false]);
    assert_eq!(seen[4], "remove /tmp/ws");
    assert_eq!(seen[5], "finish Io CopyOut /data/image.wic");
}

#[test]
fn failed_removal_keeps_the_result() {
    let run = begin("/data/image.wic", opts(false, None, false));
    let seen = drive(run, &[true, true, true, true, false]);
    assert_eq!(seen[5], "finish ok");
}

#[test]
fn run_ends_within_ten_steps_whatever_happens() {
    let run = begin("/data/image.wic.gz", opts(true, Some(Compression::Xz), false));
    let seen = drive(run, &[]);
    assert!(seen.len() <= 11);
    let run = begin("/data/image.wic.gz", opts(true, Some(Compression::Xz), false));
    let seen = drive(run, &[true, true, true, true, false]);
    assert_eq!(seen.last().unwrap(), "finish Io GenerateBmap /tmp/ws/image.wic");
}

#[test]
fn finished_run_stays_finished() {
    let mut run = begin("/data/image.wic", opts(false, None, false));
    run.advance(false);
    assert!(run.is_finished());
    run.advance(true);
    assert!(run.is_finished());
    assert_eq!(describe(&run.next_action()), "finish Io CreateWorkspace /tmp/ws");
}

#[test]
fn containerized_signal_values() {
    assert!(containerized_signal(Some(b("true"))));
    assert!(containerized_signal(Some(b("1"))));
    assert!(!containerized_signal(Some(b("TRUE"))));
    assert!(!containerized_signal(Some(b("0"))));
    assert!(!containerized_signal(Some(b(""))));
    assert!(!containerized_signal(None));
}
