//! Where the runtime keeps its persisted state.
//!
//! The storage root is named from a base directory, a fixed namespace and the
//! network seed, so that instances started with different seeds on one machine
//! never share a directory.

use vstd::prelude::*;
use crate::text::join;

verus! {

/// The namespace directory below the base directory.
pub const STORAGE_NAMESPACE: &'static str = "email_notifications_provider";

/// The storage root as a sequence of characters: base, namespace and seed,
/// separated by `/`.
pub open spec fn spec_storage_root(base: Seq<char>, seed: Seq<char>) -> Seq<char> {
    base + "/"@ + STORAGE_NAMESPACE@ + "/"@ + seed
}

/// Builds the storage root for a network seed below `base`.
pub fn storage_root(base: &str, seed: &str) -> (r: String)
    ensures
        r@ == spec_storage_root(base@, seed@),
{
    let with_sep = join(base, "/");
    let with_ns = join(with_sep.as_str(), STORAGE_NAMESPACE);
    let with_sep2 = join(with_ns.as_str(), "/");
    join(with_sep2.as_str(), seed)
}

/// Two different seeds never give the same storage root below one base
/// directory: the two roots differ as texts.
pub proof fn lemma_storage_roots_distinct(base: Seq<char>, seed_a: Seq<char>, seed_b: Seq<char>)
    requires
        seed_a != seed_b,
    ensures
        spec_storage_root(base, seed_a) != spec_storage_root(base, seed_b),
{
    let prefix = base + "/"@ + STORAGE_NAMESPACE@ + "/"@;
    let a = spec_storage_root(base, seed_a);
    let b = spec_storage_root(base, seed_b);
    assert(a.subrange(prefix.len() as int, a.len() as int) =~= seed_a);
    assert(b.subrange(prefix.len() as int, b.len() as int) =~= seed_b);
}

} // verus!
