//! Naming of the per-run staging directory.
use vstd::prelude::*;
use crate::paths::{file_name_of, join, join_of, last_index_of, lemma_last_index_of, SEP};

verus! {

/// A byte of a hyphenated lower-case identifier: `0`-`9`, `a`-`f` or `-`.
pub open spec fn is_id_byte(b: u8) -> bool {
    (0x30 <= b <= 0x39) || (0x61 <= b <= 0x66) || b == 0x2d
}

/// A fresh identifier in its hyphenated form.
pub open spec fn is_workspace_id(id: Seq<u8>) -> bool {
    &&& id.len() == 36
    &&& forall|i: int| 0 <= i < id.len() ==> is_id_byte(#[trigger] id[i])
}

/// Relies on uuid's `Uuid::new_v4` and the `Display` of its hyphenated form:
/// 36 bytes, each a lower-case hexadecimal digit or a hyphen. Which
/// identifier comes out is random.
#[verifier::external_body]
fn random_id() -> (r: Vec<u8>)
    ensures
        is_workspace_id(r@),
{
    uuid::Uuid::new_v4().hyphenated().to_string().into_bytes()
}

/// A path for a new, uniquely named staging directory directly under
/// `tmp_root`: the root, a separator, and a random identifier that holds no
/// separator, so that the identifier is the path's final component.
pub fn workspace_path(tmp_root: &Vec<u8>) -> (r: Vec<u8>)
    requires
        tmp_root@.len() + 37 <= usize::MAX,
    ensures
        exists|id: Seq<u8>|
            is_workspace_id(id) && r@ == join_of(tmp_root@, id) && file_name_of(r@) == id,
{
    let id = random_id();
    let r = join(tmp_root, &id);
    proof {
        let p = r@;
        lemma_last_index_of(p, SEP);
        assert(p[tmp_root@.len() as int] == SEP);
        assert forall|j: int| tmp_root@.len() < j < p.len() implies p[j] != SEP by {
            assert(p[j] == id@[j - tmp_root@.len() - 1]);
            assert(is_id_byte(id@[j - tmp_root@.len() - 1]));
        }
        if last_index_of(p, SEP) != tmp_root@.len() as int {
            assert(p[last_index_of(p, SEP)] == SEP);
        }
        assert(file_name_of(p) =~= id@);
    }
    r
}

} // verus!
