//! Paths as byte strings, with the few operations that the pipeline needs:
//! splitting off the final component, its extension, and joining.
use vstd::prelude::*;

verus! {

/// Separator between path components.
pub const SEP: u8 = 0x2f;

/// Separator between a file stem and its extension.
pub const DOT: u8 = 0x2e;

/// Index of the last occurrence of `b` in `s`, or -1 when there is none.
pub open spec fn last_index_of(s: Seq<u8>, b: u8) -> int
    decreases s.len(),
{
    if s.len() == 0 {
        -1
    } else if s.last() == b {
        s.len() - 1
    } else {
        last_index_of(s.drop_last(), b)
    }
}

/// The final component of a path: everything after the last separator.
pub open spec fn file_name_of(p: Seq<u8>) -> Seq<u8> {
    p.subrange(last_index_of(p, SEP) + 1, p.len() as int)
}

/// Everything up to and including the last separator (empty for a bare name).
pub open spec fn dir_prefix_of(p: Seq<u8>) -> Seq<u8> {
    p.subrange(0, last_index_of(p, SEP) + 1)
}

/// A file name that names a file: not empty, and neither `.` nor `..`.
pub open spec fn is_valid_file_name(n: Seq<u8>) -> bool {
    &&& n.len() > 0
    &&& n != seq![DOT]
    &&& n != seq![DOT, DOT]
}

/// The index of the dot that starts the extension of a file name, if it has
/// one: the last dot, unless it is the first byte (`.profile` has none).
pub open spec fn extension_dot(n: Seq<u8>) -> int {
    last_index_of(n, DOT)
}

pub open spec fn has_extension(n: Seq<u8>) -> bool {
    extension_dot(n) > 0
}

/// The extension of a file name, without its dot (empty if it has none).
pub open spec fn extension_of(n: Seq<u8>) -> Seq<u8> {
    if has_extension(n) {
        n.subrange(extension_dot(n) + 1, n.len() as int)
    } else {
        seq![]
    }
}

/// A file name with its extension and the dot before it removed.
pub open spec fn without_extension_of(n: Seq<u8>) -> Seq<u8> {
    if has_extension(n) {
        n.subrange(0, extension_dot(n))
    } else {
        n
    }
}

/// A file name with `.ext` appended.
pub open spec fn with_extension_of(n: Seq<u8>, ext: Seq<u8>) -> Seq<u8> {
    n + seq![DOT] + ext
}

/// `name` placed in the directory `dir`.
pub open spec fn join_of(dir: Seq<u8>, name: Seq<u8>) -> Seq<u8> {
    dir + seq![SEP] + name
}

/// The path of the file `name` beside the file `p` (in the same directory).
pub open spec fn sibling_of(p: Seq<u8>, name: Seq<u8>) -> Seq<u8> {
    dir_prefix_of(p) + name
}

pub proof fn lemma_last_index_of(s: Seq<u8>, b: u8)
    ensures
        -1 <= last_index_of(s, b) < s.len(),
        last_index_of(s, b) >= 0 ==> s[last_index_of(s, b)] == b,
        forall|j: int| last_index_of(s, b) < j < s.len() ==> s[j] != b,
    decreases s.len(),
{
    if s.len() > 0 && s.last() != b {
        lemma_last_index_of(s.drop_last(), b);
        assert forall|j: int| last_index_of(s, b) < j < s.len() implies s[j] != b by {
            if j < s.len() - 1 {
                assert(s[j] == s.drop_last()[j]);
            }
        }
    }
}

/// The last index in `s` that holds `b`, when there is one.
pub fn last_index(s: &Vec<u8>, b: u8) -> (r: Option<usize>)
    ensures
        r is Some ==> r->0 as int == last_index_of(s@, b) && r->0 < s@.len(),
        r is None ==> last_index_of(s@, b) == -1,
{
    let mut i: usize = s.len();
    assert(s@.subrange(0, i as int) =~= s@);
    while i > 0
        invariant
            i <= s@.len(),
            last_index_of(s@, b) == last_index_of(s@.subrange(0, i as int), b),
        decreases i,
    {
        assert(s@.subrange(0, i as int).drop_last() =~= s@.subrange(0, i - 1));
        if s[i - 1] == b {
            return Some(i - 1);
        }
        i = i - 1;
    }
    None
}

/// The bytes `s[lo..hi]` as a new vector.
pub fn copy_range(s: &Vec<u8>, lo: usize, hi: usize) -> (r: Vec<u8>)
    requires
        lo <= hi <= s@.len(),
    ensures
        r@ == s@.subrange(lo as int, hi as int),
{
    let mut r: Vec<u8> = Vec::new();
    let mut i: usize = lo;
    while i < hi
        invariant
            lo <= i <= hi <= s@.len(),
            r@ == s@.subrange(lo as int, i as int),
        decreases hi - i,
    {
        r.push(s[i]);
        assert(r@ =~= s@.subrange(lo as int, i + 1));
        i = i + 1;
    }
    r
}

/// A copy of `p`.
pub fn duplicate(p: &Vec<u8>) -> (r: Vec<u8>)
    ensures
        r@ == p@,
{
    let r = copy_range(p, 0, p.len());
    assert(p@.subrange(0, p@.len() as int) =~= p@);
    r
}

/// The final component of a path is no longer than the path.
pub proof fn lemma_file_name_len(p: Seq<u8>)
    ensures
        file_name_of(p).len() <= p.len(),
        dir_prefix_of(p).len() <= p.len(),
        dir_prefix_of(p) + file_name_of(p) == p,
{
    lemma_last_index_of(p, SEP);
    assert(dir_prefix_of(p) + file_name_of(p) =~= p);
}

/// Removing an extension does not lengthen a name.
pub proof fn lemma_without_extension_len(n: Seq<u8>)
    ensures
        without_extension_of(n).len() <= n.len(),
{
    lemma_last_index_of(n, DOT);
}

/// Appends all of `tail` to `v`.
pub fn push_all(v: &mut Vec<u8>, tail: &Vec<u8>)
    requires
        old(v)@.len() + tail@.len() <= usize::MAX,
    ensures
        final(v)@ == old(v)@ + tail@,
{
    let ghost start = v@;
    let mut i: usize = 0;
    while i < tail.len()
        invariant
            i <= tail@.len(),
            v@ == start + tail@.subrange(0, i as int),
            start.len() + tail@.len() <= usize::MAX,
        decreases tail@.len() - i,
    {
        v.push(tail[i]);
        assert(v@ =~= start + tail@.subrange(0, i + 1));
        i = i + 1;
    }
    assert(tail@.subrange(0, tail@.len() as int) =~= tail@);
}

/// The final component of `p`.
pub fn file_name(p: &Vec<u8>) -> (r: Vec<u8>)
    ensures
        r@ == file_name_of(p@),
{
    proof { lemma_last_index_of(p@, SEP); }
    let len = p.len();
    match last_index(p, SEP) {
        Some(i) => copy_range(p, i + 1, len),
        None => copy_range(p, 0, p.len()),
    }
}

/// The directory part of `p`, with its trailing separator.
pub fn dir_prefix(p: &Vec<u8>) -> (r: Vec<u8>)
    ensures
        r@ == dir_prefix_of(p@),
{
    proof { lemma_last_index_of(p@, SEP); }
    let len = p.len();
    match last_index(p, SEP) {
        Some(i) => copy_range(p, 0, i + 1),
        None => Vec::new(),
    }
}

/// Whether `n` is a usable file name.
pub fn valid_file_name(n: &Vec<u8>) -> (r: bool)
    ensures
        r == is_valid_file_name(n@),
{
    if n.len() == 0 {
        false
    } else if n.len() == 1 {
        assert(n@ == seq![DOT] <==> n@[0] == DOT) by {
            if n@[0] == DOT { assert(n@ =~= seq![DOT]); }
        }
        n[0] != DOT
    } else if n.len() == 2 {
        assert(n@ == seq![DOT, DOT] <==> (n@[0] == DOT && n@[1] == DOT)) by {
            if n@[0] == DOT && n@[1] == DOT { assert(n@ =~= seq![DOT, DOT]); }
        }
        !(n[0] == DOT && n[1] == DOT)
    } else {
        true
    }
}

/// The extension of the file name `n`, when it has one.
pub fn extension(n: &Vec<u8>) -> (r: Option<Vec<u8>>)
    ensures
        r.is_some() == has_extension(n@),
        r.is_some() ==> r->0@ == extension_of(n@),
{
    proof { lemma_last_index_of(n@, DOT); }
    let len = n.len();
    match last_index(n, DOT) {
        Some(i) => if i > 0 {
            Some(copy_range(n, i + 1, len))
        } else {
            None
        },
        None => None,
    }
}

/// The file name `n` without its extension.
pub fn without_extension(n: &Vec<u8>) -> (r: Vec<u8>)
    ensures
        r@ == without_extension_of(n@),
{
    proof { lemma_last_index_of(n@, DOT); }
    match last_index(n, DOT) {
        Some(i) => if i > 0 {
            copy_range(n, 0, i)
        } else {
            copy_range(n, 0, n.len())
        },
        None => copy_range(n, 0, n.len()),
    }
}

/// `n` with `.ext` appended.
pub fn with_extension(n: &Vec<u8>, ext: &Vec<u8>) -> (r: Vec<u8>)
    requires
        n@.len() + ext@.len() < usize::MAX,
    ensures
        r@ == with_extension_of(n@, ext@),
{
    let mut r = copy_range(n, 0, n.len());
    r.push(DOT);
    push_all(&mut r, ext);
    r
}

/// `name` inside the directory `dir`.
pub fn join(dir: &Vec<u8>, name: &Vec<u8>) -> (r: Vec<u8>)
    requires
        dir@.len() + name@.len() < usize::MAX,
    ensures
        r@ == join_of(dir@, name@),
{
    let mut r = copy_range(dir, 0, dir.len());
    r.push(SEP);
    push_all(&mut r, name);
    r
}

/// The file `name` beside the file `p`.
pub fn sibling(p: &Vec<u8>, name: &Vec<u8>) -> (r: Vec<u8>)
    requires
        dir_prefix_of(p@).len() + name@.len() <= usize::MAX,
    ensures
        r@ == sibling_of(p@, name@),
{
    proof { lemma_last_index_of(p@, SEP); }
    let mut r = dir_prefix(p);
    push_all(&mut r, name);
    r
}

} // verus!
