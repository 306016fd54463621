use image_pipeline::compression::Compression;
use image_pipeline::paths::{
    dir_prefix, duplicate, extension, file_name, join, sibling, valid_file_name, with_extension,
    without_extension,
};
use image_pipeline::workspace::workspace_path;

fn b(s: &str) -> Vec<u8> {
    s.as_bytes().to_vec()
}

#[test]
fn codec_detected_from_extension() {
    assert_eq!(Compression::from_file(&b("/a/image.wic.gz")), Some(Compression::Gzip));
    assert_eq!(Compression::from_file(&b("/a/image.wic.xz")), Some(Compression::Xz));
    assert_eq!(Compression::from_file(&b("image.wic.bz2")), Some(Compression::Bzip2));
    assert_eq!(Compression::from_file(&b("/a/image.wic.zst")), Some(Compression::Zstd));
    assert_eq!(Compression::from_file(&b("/a/image.wic")), None);
    assert_eq!(Compression::from_file(&b("/a/image")), None);
    assert_eq!(Compression::from_file(&b("/a/.gz")), None);
    assert_eq!(Compression::from_file(&b("/a.gz/image")), None);
    assert_eq!(Compression::from_file(&b("/a/image.GZ")), None);
}

#[test]
fn codec_extensions() {
    assert_eq!(Compression::Gzip.extension(), b("gz"));
    assert_eq!(Compression::Xz.extension(), b("xz"));
    assert_eq!(Compression::Bzip2.extension(), b("bz2"));
    assert_eq!(Compression::Zstd.extension(), b("zst"));
    assert_eq!(Compression::from_extension(&b("zst")), Some(Compression::Zstd));
    assert_eq!(Compression::from_extension(&b("zstd")), None);
}

#[test]
fn compressed_name_round_trip() {
    for c in [Compression::Gzip, Compression::Xz, Compression::Bzip2, Compression::Zstd] {
        let named = with_extension(&b("image.wic"), &c.extension());
        assert_eq!(Compression::from_file(&named), Some(c));
        assert_eq!(without_extension(&named), b("image.wic"));
    }
}

#[test]
fn path_parts() {
    assert_eq!(file_name(&b("/data/img/image.wic")), b("image.wic"));
    assert_eq!(file_name(&b("image.wic")), b("image.wic"));
    assert_eq!(file_name(&b("/data/")), b(""));
    assert_eq!(dir_prefix(&b("/data/img/image.wic")), b("/data/img/"));
    assert_eq!(dir_prefix(&b("image.wic")), b(""));
    assert_eq!(extension(&b("image.wic.gz")), Some(b("gz")));
    assert_eq!(extension(&b(".profile")), None);
    assert_eq!(extension(&b("image")), None);
    assert_eq!(without_extension(&b("image.wic.gz")), b("image.wic"));
    assert_eq!(without_extension(&b(".profile")), b(".profile"));
    assert_eq!(join(&b("/tmp/ws"), &b("image.wic")), b("/tmp/ws/image.wic"));
    assert_eq!(sibling(&b("/data/image.wic.gz"), &b("image.wic")), b("/data/image.wic"));
    assert_eq!(sibling(&b("image.wic.gz"), &b("image.wic")), b("image.wic"));
    assert_eq!(duplicate(&b("x")), b("x"));
    assert!(valid_file_name(&b("a")));
    assert!(!valid_file_name(&b("")));
    assert!(!valid_file_name(&b(".")));
    assert!(!valid_file_name(&b("..")));
    assert!(valid_file_name(&b("...")));
}

#[test]
fn workspace_is_fresh_and_directly_under_root() {
    let a = workspace_path(&b("/tmp"));
    let c = workspace_path(&b("/tmp"));
    assert_eq!(a.len(), 41);
    assert!(a.starts_with(b"/tmp/"));
    assert_eq!(file_name(&a).len(), 36);
    assert!(a[5..].iter().all(|x| x.is_ascii_digit() || (b'a'..=b'f').contains(x) || *x == b'-'));
    assert_ne!(a, c);
}
