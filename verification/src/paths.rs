//! Safety of the relative paths named by archive entries. An entry may
//! only name a normalized relative path: extraction then cannot write
//! outside the destination directory.

use vstd::prelude::*;

verus! {

/// A `.` component occupies position `k`: a single dot bounded by the
/// path's ends or separators.
pub open spec fn dot_component_at(s: Seq<u8>, k: int) -> bool {
    &&& 0 <= k < s.len()
    &&& s[k] == 46u8
    &&& (k == 0 || s[k - 1] == 47u8)
    &&& (k + 1 == s.len() || s[k + 1] == 47u8)
}

/// A `..` component occupies positions `k` and `k + 1`.
pub open spec fn dotdot_component_at(s: Seq<u8>, k: int) -> bool {
    &&& 0 <= k && k + 1 < s.len()
    &&& s[k] == 46u8
    &&& s[k + 1] == 46u8
    &&& (k == 0 || s[k - 1] == 47u8)
    &&& (k + 2 == s.len() || s[k + 2] == 47u8)
}

/// A safe relative path: non-empty, free of NUL and backslash bytes,
/// neither absolute nor ending in a separator, with no empty, `.` or `..`
/// component. Such a path names a location strictly inside whatever
/// directory it is joined to.
pub open spec fn is_safe_relative_path(s: Seq<u8>) -> bool {
    &&& s.len() > 0
    &&& s[0] != 47u8
    &&& s[s.len() - 1] != 47u8
    &&& (forall|k: int| 0 <= k < s.len() ==> s[k] != 0u8 && s[k] != 92u8)
    &&& (forall|k: int| 0 <= k < s.len() - 1 ==> !((#[trigger] s[k]) == 47u8 && s[k + 1] == 47u8))
    &&& (forall|k: int| !dot_component_at(s, k))
    &&& (forall|k: int| !dotdot_component_at(s, k))
}

/// Decides `is_safe_relative_path` for the given bytes.
pub fn check_relative_path(path: &[u8]) -> (r: bool)
    ensures
        r == is_safe_relative_path(path@),
{
    let n = path.len();
    if n == 0 {
        return false;
    }
    if path[0] == 47 {
        return false;
    }
    if path[n - 1] == 47 {
        return false;
    }
    let mut i: usize = 0;
    while i < n
        invariant
            i <= n,
            n == path@.len(),
            n > 0,
            path@[0] != 47u8,
            path@[n - 1] != 47u8,
            forall|k: int| 0 <= k < i ==> path@[k] != 0u8 && path@[k] != 92u8,
            forall|k: int|
                0 <= k < i && k + 1 < n ==> !((#[trigger] path@[k]) == 47u8 && path@[k + 1]
                    == 47u8),
            forall|k: int| 0 <= k < i ==> !dot_component_at(path@, k),
            forall|k: int| 0 <= k < i ==> !dotdot_component_at(path@, k),
        decreases n - i,
    {
        let b = path[i];
        if b == 0 || b == 92 {
            return false;
        }
        if b == 47 && i + 1 < n && path[i + 1] == 47 {
            return false;
        }
        if b == 46 {
            let at_start = i == 0 || path[i - 1] == 47;
            if at_start {
                if i + 1 == n || path[i + 1] == 47 {
                    assert(dot_component_at(path@, i as int));
                    return false;
                }
                if path[i + 1] == 46 && (i + 2 == n || path[i + 2] == 47) {
                    assert(dotdot_component_at(path@, i as int));
                    return false;
                }
            }
        }
        proof {
            assert(!dot_component_at(path@, i as int));
            assert(!dotdot_component_at(path@, i as int));
        }
        i = i + 1;
    }
    proof {
        assert forall|k: int| !dot_component_at(path@, k) by {
            if 0 <= k < n {
            }
        }
        assert forall|k: int| !dotdot_component_at(path@, k) by {
            if 0 <= k < n {
            }
        }
    }
    true
}

/// Law of path-traversal rejection: a path that is absolute or carries a
/// `..` component anywhere is not a safe relative path, so the extractor
/// refuses it rather than writing outside the destination.
pub proof fn lemma_traversal_rejected(p: Seq<u8>, k: int)
    requires
        dotdot_component_at(p, k) || (p.len() > 0 && p[0] == 47u8),
    ensures
        !is_safe_relative_path(p),
{
}

/// Law of containment: joining a safe relative path to a destination
/// directory yields a path that extends the destination — the destination
/// is a strict prefix, and the relative part neither is absolute nor holds
/// any `..` component, so resolution stays inside the destination.
pub proof fn lemma_entry_destination_within(dest: Seq<u8>, rel: Seq<u8>)
    requires
        is_safe_relative_path(rel),
    ensures
        (dest + seq![47u8] + rel).subrange(0, dest.len() as int) == dest,
        (dest + seq![47u8] + rel).len() > dest.len(),
        rel[0] != 47u8,
        forall|k: int| !dotdot_component_at(rel, k),
{
    assert((dest + seq![47u8] + rel).subrange(0, dest.len() as int) =~= dest);
}

/// The on-disk location of an entry inside the destination directory:
/// destination, separator, relative path.
pub fn entry_destination(dest_dir: &[u8], rel: &[u8]) -> (r: Vec<u8>)
    requires
        is_safe_relative_path(rel@),
    ensures
        r@ == dest_dir@ + seq![47u8] + rel@,
{
    let mut out = vstd::slice::slice_to_vec(dest_dir);
    out.push(47);
    proof {
        assert(out@ =~= dest_dir@ + seq![47u8]);
    }
    crate::cache::append_bytes(&mut out, rel);
    out
}

} // verus!
