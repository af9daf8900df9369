//! File-system paths as strings, joined the way `Path::join` joins them on Unix.
use vstd::prelude::*;

use crate::text::{concat2, concat3, ends_with, owned, starts_with, str_ends_with, str_starts_with};

verus! {

/// `Path::join` on Unix: an absolute `rel` replaces `base`; otherwise a `/`
/// is put between them unless `base` is empty or already ends with one.
pub open spec fn path_join(base: Seq<char>, rel: Seq<char>) -> Seq<char> {
    if starts_with(rel, "/"@) {
        rel
    } else if base.len() == 0 || ends_with(base, "/"@) {
        base + rel
    } else {
        base + "/"@ + rel
    }
}

/// `base` joined with `rel`.
pub fn join(base: &str, rel: &str) -> (r: String)
    ensures
        r@ == path_join(base@, rel@),
{
    if str_starts_with(rel, "/") {
        owned(rel)
    } else if base.unicode_len() == 0 || str_ends_with(base, "/") {
        concat2(base, rel)
    } else {
        concat3(base, "/", rel)
    }
}

} // verus!
