//! Project-root discovery from a build output hint.
//!
//! A path is modelled as its sequence of segments. Starting from the hint,
//! segments are stripped from the end until the final segment equals the
//! build layout's sentinel name; the root is the path one level above that
//! sentinel directory. No segment matching the sentinel means "no root":
//! callers fall back to defaults, never to an error.

use vstd::prelude::*;

use crate::value::{str_views, string_eq};

verus! {

/// The views of a sequence of path segments.
pub open spec fn seg_views(segs: Seq<String>) -> Seq<Seq<char>> {
    str_views(segs)
}

/// The index of the last segment equal to the sentinel, or -1 when no
/// segment matches.
pub open spec fn sentinel_index(segs: Seq<Seq<char>>, sentinel: Seq<char>) -> int
    decreases segs.len(),
{
    if segs.len() == 0 {
        -1
    } else if segs.last() == sentinel {
        segs.len() - 1
    } else {
        sentinel_index(segs.drop_last(), sentinel)
    }
}

/// The root that a hint resolves to: everything before the last sentinel
/// segment, or nothing when the hint holds no sentinel.
pub open spec fn root_of(segs: Seq<Seq<char>>, sentinel: Seq<char>) -> Option<Seq<Seq<char>>> {
    let i = sentinel_index(segs, sentinel);
    if i >= 0 {
        Some(segs.take(i))
    } else {
        None
    }
}

/// `sentinel_index` names the last occurrence of the sentinel: it is in
/// bounds and matching when non-negative, and nothing after it matches.
pub proof fn lemma_sentinel_index_is_last(segs: Seq<Seq<char>>, sentinel: Seq<char>)
    ensures
        -1 <= sentinel_index(segs, sentinel) < segs.len(),
        sentinel_index(segs, sentinel) >= 0 ==> segs[sentinel_index(segs, sentinel)] == sentinel,
        forall|j: int|
            sentinel_index(segs, sentinel) < j < segs.len() ==> segs[j] != sentinel,
    decreases segs.len(),
{
    if segs.len() == 0 {
    } else if segs.last() == sentinel {
    } else {
        lemma_sentinel_index_is_last(segs.drop_last(), sentinel);
        assert forall|j: int| sentinel_index(segs, sentinel) < j < segs.len() implies segs[j]
            != sentinel by {
            if j < segs.len() - 1 {
                assert(segs.drop_last()[j] == segs[j]);
            }
        }
    }
}

/// Any position that matches the sentinel with no match after it is the
/// position that `sentinel_index` names.
pub proof fn lemma_sentinel_index_from_end(segs: Seq<Seq<char>>, sentinel: Seq<char>, k: int)
    requires
        0 <= k < segs.len(),
        segs[k] == sentinel,
        forall|j: int| k < j < segs.len() ==> segs[j] != sentinel,
    ensures
        sentinel_index(segs, sentinel) == k,
{
    lemma_sentinel_index_is_last(segs, sentinel);
    let i = sentinel_index(segs, sentinel);
    if i < k {
        assert(segs[k] != sentinel);
    } else if i > k {
        assert(segs[i] != sentinel);
    }
}

/// A hint with no sentinel segment resolves to no root.
pub proof fn lemma_no_sentinel_no_root(segs: Seq<Seq<char>>, sentinel: Seq<char>)
    requires
        forall|j: int| 0 <= j < segs.len() ==> segs[j] != sentinel,
    ensures
        root_of(segs, sentinel) is None,
{
    lemma_sentinel_index_is_last(segs, sentinel);
    let i = sentinel_index(segs, sentinel);
    if i >= 0 {
        assert(segs[i] != sentinel);
    }
}

/// Root discovery is deterministic: two resolutions of the same hint agree,
/// whether or not a root was found.
pub proof fn lemma_root_discovery_idempotent(
    segs: Seq<Seq<char>>,
    sentinel: Seq<char>,
    r1: Option<Seq<Seq<char>>>,
    r2: Option<Seq<Seq<char>>>,
)
    requires
        r1 == root_of(segs, sentinel),
        r2 == root_of(segs, sentinel),
    ensures
        r1 == r2,
{
}

/// Resolve the project root from an optional build output hint: strip
/// segments from the end until the sentinel is the final segment, then step
/// one level above it. An absent hint, or a hint with no sentinel segment,
/// yields no root.
#[verifier::loop_isolation(false)]
pub fn resolve_root(hint: Option<&Vec<String>>, sentinel: &String) -> (r: Option<Vec<String>>)
    ensures
        match hint {
            None => r is None,
            Some(h) => match r {
                None => root_of(seg_views(h@), sentinel@) is None,
                Some(root) => root_of(seg_views(h@), sentinel@) == Some(seg_views(root@)),
            },
        },
{
    let h = match hint {
        Some(h) => h,
        None => {
            return None;
        },
    };
    let ghost views = seg_views(h@);
    let mut i: usize = h.len();
    while i > 0
        invariant
            0 <= i <= h.len(),
            views == seg_views(h@),
            forall|j: int| i <= j < h.len() ==> views[j] != sentinel@,
        decreases i,
    {
        if string_eq(&h[i - 1], sentinel) {
            proof {
                lemma_sentinel_index_from_end(views, sentinel@, i - 1);
            }
            let mut root: Vec<String> = Vec::new();
            let mut j: usize = 0;
            while j < i - 1
                invariant
                    0 <= j <= i - 1 < h.len(),
                    root@.len() == j,
                    forall|k: int| 0 <= k < j ==> root@[k] == h@[k],
                decreases i - 1 - j,
            {
                root.push(h[j].clone());
                j = j + 1;
            }
            proof {
                assert(seg_views(root@) =~= views.take(i - 1));
            }
            return Some(root);
        }
        i = i - 1;
    }
    proof {
        lemma_no_sentinel_no_root(views, sentinel@);
    }
    None
}

} // verus!
