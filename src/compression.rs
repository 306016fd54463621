//! The compression codecs that an image may carry, and how a codec is told
//! from a file name's extension.
use vstd::prelude::*;
use crate::paths::{
    DOT, extension, extension_of, file_name, file_name_of, has_extension, last_index_of,
    lemma_last_index_of, with_extension_of, without_extension_of,
};

verus! {

/// A compression codec of a disk image.
#[derive(Clone, Copy, Debug, PartialEq, Eq, Structural)]
pub enum Compression {
    Gzip,
    Xz,
    Bzip2,
    Zstd,
}

/// The file extension that marks each codec: `gz`, `xz`, `bz2`, `zst`.
pub open spec fn extension_bytes(c: Compression) -> Seq<u8> {
    match c {
        Compression::Gzip => seq![0x67u8, 0x7au8],
        Compression::Xz => seq![0x78u8, 0x7au8],
        Compression::Bzip2 => seq![0x62u8, 0x7au8, 0x32u8],
        Compression::Zstd => seq![0x7au8, 0x73u8, 0x74u8],
    }
}

/// The codec that an extension marks, if any.
pub open spec fn codec_of_extension(ext: Seq<u8>) -> Option<Compression> {
    if ext == extension_bytes(Compression::Gzip) {
        Some(Compression::Gzip)
    } else if ext == extension_bytes(Compression::Xz) {
        Some(Compression::Xz)
    } else if ext == extension_bytes(Compression::Bzip2) {
        Some(Compression::Bzip2)
    } else if ext == extension_bytes(Compression::Zstd) {
        Some(Compression::Zstd)
    } else {
        None
    }
}

/// The codec of a file name: the one that its extension marks; none for a
/// name without a recognized extension, which is a plain image.
pub open spec fn codec_of_name(n: Seq<u8>) -> Option<Compression> {
    if has_extension(n) {
        codec_of_extension(extension_of(n))
    } else {
        None
    }
}

/// The codec of the file that a path names.
pub open spec fn codec_of_path(p: Seq<u8>) -> Option<Compression> {
    codec_of_name(file_name_of(p))
}

/// Whether two byte strings are equal.
pub fn bytes_equal(a: &Vec<u8>, b: &Vec<u8>) -> (r: bool)
    ensures
        r == (a@ == b@),
{
    if a.len() != b.len() {
        return false;
    }
    let mut i: usize = 0;
    while i < a.len()
        invariant
            a@.len() == b@.len(),
            i <= a@.len(),
            forall|j: int| 0 <= j < i ==> a@[j] == b@[j],
        decreases a@.len() - i,
    {
        if a[i] != b[i] {
            return false;
        }
        i = i + 1;
    }
    assert(a@ =~= b@);
    true
}

impl Compression {
    /// The extension that marks this codec.
    pub fn extension(&self) -> (r: Vec<u8>)
        ensures
            r@ == extension_bytes(*self),
    {
        let r = match self {
            Compression::Gzip => vec![0x67u8, 0x7au8],
            Compression::Xz => vec![0x78u8, 0x7au8],
            Compression::Bzip2 => vec![0x62u8, 0x7au8, 0x32u8],
            Compression::Zstd => vec![0x7au8, 0x73u8, 0x74u8],
        };
        assert(r@ =~= extension_bytes(*self));
        r
    }

    /// The codec that `ext` marks, if any.
    pub fn from_extension(ext: &Vec<u8>) -> (r: Option<Compression>)
        ensures
            r == codec_of_extension(ext@),
    {
        if bytes_equal(ext, &Compression::Gzip.extension()) {
            Some(Compression::Gzip)
        } else if bytes_equal(ext, &Compression::Xz.extension()) {
            Some(Compression::Xz)
        } else if bytes_equal(ext, &Compression::Bzip2.extension()) {
            Some(Compression::Bzip2)
        } else if bytes_equal(ext, &Compression::Zstd.extension()) {
            Some(Compression::Zstd)
        } else {
            None
        }
    }

    /// Detects the codec of the image at `path` from its file name's
    /// extension; `None` for a plain image.
    pub fn from_file(path: &Vec<u8>) -> (r: Option<Compression>)
        ensures
            r == codec_of_path(path@),
    {
        let name = file_name(path);
        match extension(&name) {
            Some(ext) => Compression::from_extension(&ext),
            None => None,
        }
    }
}

/// No codec's extension holds a dot.
pub proof fn lemma_extension_has_no_dot(c: Compression)
    ensures
        extension_bytes(c).len() > 0,
        forall|j: int| 0 <= j < extension_bytes(c).len() ==> extension_bytes(c)[j] != DOT,
{
}

/// In `a + "." + e`, where `e` holds no dot, the last dot is the one added.
pub proof fn lemma_last_dot_of_appended(a: Seq<u8>, e: Seq<u8>)
    requires
        forall|j: int| 0 <= j < e.len() ==> e[j] != DOT,
    ensures
        last_index_of(with_extension_of(a, e), DOT) == a.len(),
    decreases e.len(),
{
    let s = with_extension_of(a, e);
    if e.len() == 0 {
        assert(s.last() == DOT);
    } else {
        let e2 = e.drop_last();
        assert(s.drop_last() =~= with_extension_of(a, e2));
        assert(s.last() == e.last());
        lemma_last_dot_of_appended(a, e2);
    }
}

/// Appending `.e` to a non-empty name `a`, where `e` holds no dot, gives a
/// name whose extension is `e` and whose stem is `a`.
pub proof fn lemma_split_appended(a: Seq<u8>, e: Seq<u8>)
    requires
        a.len() > 0,
        forall|j: int| 0 <= j < e.len() ==> e[j] != DOT,
    ensures
        has_extension(with_extension_of(a, e)),
        extension_of(with_extension_of(a, e)) == e,
        without_extension_of(with_extension_of(a, e)) == a,
{
    let s = with_extension_of(a, e);
    lemma_last_dot_of_appended(a, e);
    assert(s.subrange(a.len() + 1 as int, s.len() as int) =~= e);
    assert(s.subrange(0, a.len() as int) =~= a);
}

/// A name with an extension is its stem, a dot and the extension.
pub proof fn lemma_rejoin_extension(n: Seq<u8>)
    requires
        has_extension(n),
    ensures
        n == with_extension_of(without_extension_of(n), extension_of(n)),
{
    lemma_last_index_of(n, DOT);
    assert(n =~= with_extension_of(without_extension_of(n), extension_of(n)));
}

/// Naming a compressed output by appending a codec's extension to a
/// non-empty plain name can be undone: the codec detected from the new name
/// is that codec, and removing its extension gives the plain name back.
pub proof fn lemma_compressed_name_round_trip(n: Seq<u8>, c: Compression)
    requires
        n.len() > 0,
    ensures
        codec_of_name(with_extension_of(n, extension_bytes(c))) == Some(c),
        without_extension_of(with_extension_of(n, extension_bytes(c))) == n,
{
    lemma_extension_has_no_dot(c);
    lemma_split_appended(n, extension_bytes(c));
    assert(extension_bytes(Compression::Gzip) != extension_bytes(Compression::Xz));
    assert(extension_bytes(Compression::Gzip) != extension_bytes(Compression::Bzip2));
    assert(extension_bytes(Compression::Xz) != extension_bytes(Compression::Zstd));
    assert(extension_bytes(Compression::Gzip) != extension_bytes(Compression::Zstd));
    assert(extension_bytes(Compression::Xz) != extension_bytes(Compression::Bzip2));
    assert(extension_bytes(Compression::Bzip2)[0] != extension_bytes(Compression::Zstd)[0]);
}

} // verus!
