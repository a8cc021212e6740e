//! The cache manager's decisions: where the extracted tree lives, whether
//! it is fresh, and how a stale tree is replaced without ever exposing a
//! partially extracted one.
//!
//! Paths are byte strings. The cache directory is derived deterministically
//! from the platform's local-data root, the fixed `warp/packages` namespace
//! and the launcher's own file name — the file name, not a content hash, is
//! the cache key, so the cache is refreshed whenever the launcher file is
//! newer than the cached tree.

use vstd::prelude::*;

use crate::errors::LauncherError;

verus! {

/// The fixed namespace segment between the local-data root and the
/// launcher's file name: the bytes of `/warp/packages/`.
pub open spec fn namespace_bytes() -> Seq<u8> {
    seq![
        47u8,
        119u8,
        97u8,
        114u8,
        112u8,
        47u8,
        112u8,
        97u8,
        99u8,
        107u8,
        97u8,
        103u8,
        101u8,
        115u8,
        47u8,
    ]
}

/// The cache directory for a launcher: root, namespace, launcher file name.
pub open spec fn cache_path_spec(root: Seq<u8>, launcher_file_name: Seq<u8>) -> Seq<u8> {
    root + namespace_bytes() + launcher_file_name
}

/// Appends all of `src` to `dst`.
pub fn append_bytes(dst: &mut Vec<u8>, src: &[u8])
    ensures
        final(dst)@ == old(dst)@ + src@,
{
    let n = src.len();
    let mut i: usize = 0;
    proof {
        assert(dst@ =~= dst@ + src@.subrange(0, 0));
    }
    while i < n
        invariant
            i <= n,
            n == src@.len(),
            dst@ == old(dst)@ + src@.subrange(0, i as int),
        decreases n - i,
    {
        dst.push(src[i]);
        proof {
            assert(old(dst)@ + src@.subrange(0, i + 1) =~= (old(dst)@ + src@.subrange(
                0,
                i as int,
            )).push(src@[i as int]));
        }
        i = i + 1;
    }
    proof {
        assert(src@.subrange(0, n as int) =~= src@);
    }
}

/// The namespace segment as a vector.
fn namespace_vec() -> (r: Vec<u8>)
    ensures
        r@ == namespace_bytes(),
{
    let mut v: Vec<u8> = Vec::new();
    v.push(47);
    v.push(119);
    v.push(97);
    v.push(114);
    v.push(112);
    v.push(47);
    v.push(112);
    v.push(97);
    v.push(99);
    v.push(107);
    v.push(97);
    v.push(103);
    v.push(101);
    v.push(115);
    v.push(47);
    proof {
        assert(v@ =~= namespace_bytes());
    }
    v
}

/// Composes the cache directory path for a launcher file name under a
/// local-data root. Pure and deterministic: the exact result is fixed by
/// the two arguments alone.
pub fn resolve_cache_path(root: &[u8], launcher_file_name: &[u8]) -> (r: Vec<u8>)
    ensures
        r@ == cache_path_spec(root@, launcher_file_name@),
{
    let mut out = vstd::slice::slice_to_vec(root);
    let ns = namespace_vec();
    append_bytes(&mut out, ns.as_slice());
    append_bytes(&mut out, launcher_file_name);
    out
}

/// Relies on dirs::data_local_dir: the platform's local-data directory, if
/// the platform defines one. The result depends on the machine and its
/// environment, so nothing is promised of the returned bytes.
#[verifier::external_body]
fn data_local_root() -> (r: Option<Vec<u8>>) {
    dirs::data_local_dir().map(|p| p.to_string_lossy().into_owned().into_bytes())
}

/// Resolves the canonical cache directory for this launcher:
/// `<local-data-root>/warp/packages/<launcher-file-name>`. Fails with
/// `EnvironmentError` exactly when the platform names no local-data root.
pub fn default_cache_path(launcher_file_name: &[u8]) -> (r: Result<Vec<u8>, LauncherError>)
    ensures
        match r {
            Ok(p) => exists|root: Seq<u8>| p@ == cache_path_spec(root, launcher_file_name@),
            Err(e) => e == LauncherError::EnvironmentError,
        },
{
    match data_local_root() {
        Some(root) => {
            let p = resolve_cache_path(root.as_slice(), launcher_file_name);
            proof {
                let w = root@;
                assert(p@ == cache_path_spec(w, launcher_file_name@));
            }
            Ok(p)
        },
        None => Err(LauncherError::EnvironmentError),
    }
}

/// How the cached tree stands relative to the launcher.
#[derive(Clone, Copy, Debug, PartialEq, Eq, Structural)]
pub enum CacheStatus {
    /// No cache directory exists.
    Missing,
    /// The cache directory is older than the launcher file.
    Stale,
    /// The cache directory is at least as new as the launcher file.
    Fresh,
}

/// The freshness relation: fresh iff the cache directory's modification
/// time is at least the launcher's; absent means missing.
pub open spec fn status_spec(cache_mtime: Option<u64>, launcher_mtime: u64) -> CacheStatus {
    match cache_mtime {
        Option::None => CacheStatus::Missing,
        Option::Some(c) => if c >= launcher_mtime {
            CacheStatus::Fresh
        } else {
            CacheStatus::Stale
        },
    }
}

/// Missing and stale are handled identically: both force extraction.
pub open spec fn refresh_needed(cache_mtime: Option<u64>, launcher_mtime: u64) -> bool {
    status_spec(cache_mtime, launcher_mtime) != CacheStatus::Fresh
}

/// Judges the cache from the two observed modification times.
pub fn classify_cache(cache_mtime: Option<u64>, launcher_mtime: u64) -> (r: CacheStatus)
    ensures
        r == status_spec(cache_mtime, launcher_mtime),
{
    match cache_mtime {
        Option::Some(c) => {
            if c >= launcher_mtime {
                CacheStatus::Fresh
            } else {
                CacheStatus::Stale
            }
        },
        Option::None => CacheStatus::Missing,
    }
}

/// Whether this invocation must clear and re-extract the cache.
pub fn needs_refresh(cache_mtime: Option<u64>, launcher_mtime: u64) -> (r: bool)
    ensures
        r == refresh_needed(cache_mtime, launcher_mtime),
{
    let status = classify_cache(cache_mtime, launcher_mtime);
    match status {
        CacheStatus::Fresh => false,
        CacheStatus::Stale => true,
        CacheStatus::Missing => true,
    }
}

/// Law of freshness idempotence: while the launcher's modification time and
/// the cache directory are unchanged and the cache is at least as new as
/// the launcher, no invocation decides to extract. The decision is a pure
/// function of the two times, so this holds of every run in such a
/// sequence: the extractor is invoked zero times across them.
pub proof fn lemma_freshness_idempotent(cache_mtime: u64, launcher_mtime: u64)
    requires
        cache_mtime >= launcher_mtime,
    ensures
        status_spec(Some(cache_mtime), launcher_mtime) == CacheStatus::Fresh,
        !refresh_needed(Some(cache_mtime), launcher_mtime),
{
}

/// Law of staleness: replacing the launcher with a newer file (its
/// modification time bumped past the cache's) turns a fresh cache stale,
/// so the next invocation refreshes before delegating; and a refresh that
/// completes — leaving the cache directory at least as new as the launcher
/// — makes every later invocation fresh again.
pub proof fn lemma_staleness_triggers_refresh(
    cache_mtime: u64,
    old_launcher_mtime: u64,
    new_launcher_mtime: u64,
    refreshed_mtime: u64,
)
    requires
        cache_mtime >= old_launcher_mtime,
        new_launcher_mtime > cache_mtime,
        refreshed_mtime >= new_launcher_mtime,
    ensures
        !refresh_needed(Some(cache_mtime), old_launcher_mtime),
        status_spec(Some(cache_mtime), new_launcher_mtime) == CacheStatus::Stale,
        refresh_needed(Some(cache_mtime), new_launcher_mtime),
        !refresh_needed(Some(refreshed_mtime), new_launcher_mtime),
{
}

/// The cache's modification time after one invocation with the launcher
/// unchanged, and whether that invocation extracted: a needed refresh
/// completes and leaves the cache directory stamped `refreshed_mtime`; a
/// fresh cache is left untouched.
pub open spec fn run_once(cache_mtime: Option<u64>, launcher_mtime: u64, refreshed_mtime: u64) -> (
    Option<u64>,
    bool,
) {
    if refresh_needed(cache_mtime, launcher_mtime) {
        (Some(refreshed_mtime), true)
    } else {
        (cache_mtime, false)
    }
}

/// How many of a sequence of invocations extract, starting from the given
/// cache state; `stamps[i]` is the mtime the cache directory would carry
/// after invocation `i`, had it refreshed.
pub open spec fn extraction_count(
    cache_mtime: Option<u64>,
    launcher_mtime: u64,
    stamps: Seq<u64>,
) -> nat
    decreases stamps.len(),
{
    if stamps.len() == 0 {
        0
    } else {
        let (next, extracted) = run_once(cache_mtime, launcher_mtime, stamps[0]);
        (if extracted {
            1nat
        } else {
            0nat
        }) + extraction_count(next, launcher_mtime, stamps.skip(1))
    }
}

/// Law of freshness idempotence over whole runs: across any number of
/// invocations with the launcher's modification time unchanged — each
/// completed refresh stamping the cache directory at least as new as the
/// launcher — the extractor runs at most once in all, and never when the
/// cache was already fresh at the start.
pub proof fn lemma_extractor_runs_at_most_once(
    cache_mtime: Option<u64>,
    launcher_mtime: u64,
    stamps: Seq<u64>,
)
    requires
        forall|i: int| 0 <= i < stamps.len() ==> stamps[i] >= launcher_mtime,
    ensures
        extraction_count(cache_mtime, launcher_mtime, stamps) <= 1,
        !refresh_needed(cache_mtime, launcher_mtime) ==> extraction_count(
            cache_mtime,
            launcher_mtime,
            stamps,
        ) == 0,
    decreases stamps.len(),
{
    if stamps.len() > 0 {
        let (next, extracted) = run_once(cache_mtime, launcher_mtime, stamps[0]);
        assert(forall|i: int|
            0 <= i < stamps.skip(1).len() ==> stamps.skip(1)[i] == stamps[i + 1]);
        lemma_extractor_runs_at_most_once(next, launcher_mtime, stamps.skip(1));
        if extracted {
            assert(next == Some(stamps[0]));
            assert(!refresh_needed(next, launcher_mtime));
        }
    }
}

/// One filesystem operation of a cache refresh, to be carried out in plan
/// order by the unverified surroundings.
#[derive(Clone, Debug, PartialEq, Eq)]
pub enum RefreshStep {
    /// Remove this directory tree; its absence already counts as success.
    RemoveDir(Vec<u8>),
    /// Materialize every archive entry under this (fresh) directory.
    ExtractInto(Vec<u8>),
    /// Atomically rename the first path onto the second.
    Rename(Vec<u8>, Vec<u8>),
}

/// The path whose contents a step changes.
pub open spec fn step_writes(step: RefreshStep) -> Seq<u8> {
    match step {
        RefreshStep::RemoveDir(p) => p@,
        RefreshStep::ExtractInto(p) => p@,
        RefreshStep::Rename(from, to) => to@,
    }
}

/// The separator between the cache path and the staging tag: `.staging-`.
pub open spec fn staging_suffix() -> Seq<u8> {
    seq![46u8, 115u8, 116u8, 97u8, 103u8, 105u8, 110u8, 103u8, 45u8]
}

/// A staging sibling of the cache directory, distinct from it, made unique
/// among concurrent invocations by a caller-chosen tag.
pub fn staging_path(cache_dir: &[u8], tag: &[u8]) -> (r: Vec<u8>)
    ensures
        r@ == cache_dir@ + staging_suffix() + tag@,
        r@ != cache_dir@,
{
    let mut out = vstd::slice::slice_to_vec(cache_dir);
    let mut suffix: Vec<u8> = Vec::new();
    suffix.push(46);
    suffix.push(115);
    suffix.push(116);
    suffix.push(97);
    suffix.push(103);
    suffix.push(105);
    suffix.push(110);
    suffix.push(103);
    suffix.push(45);
    proof {
        assert(suffix@ =~= staging_suffix());
    }
    append_bytes(&mut out, suffix.as_slice());
    append_bytes(&mut out, tag);
    proof {
        assert(out@.len() > cache_dir@.len());
    }
    out
}

/// The shape of a refresh plan for `cache_dir` staged through
/// `staging_dir`: clear any leftover staging tree, extract the whole
/// archive into it, remove the prior cache tree, and publish the staged
/// tree by one atomic rename.
pub open spec fn is_refresh_plan(
    plan: Seq<RefreshStep>,
    cache_dir: Seq<u8>,
    staging_dir: Seq<u8>,
) -> bool {
    &&& plan.len() == 4
    &&& plan[0] matches RefreshStep::RemoveDir(p) && p@ == staging_dir
    &&& plan[1] matches RefreshStep::ExtractInto(p) && p@ == staging_dir
    &&& plan[2] matches RefreshStep::RemoveDir(p) && p@ == cache_dir
    &&& plan[3] matches RefreshStep::Rename(from, to) && from@ == staging_dir && to@ == cache_dir
}

/// Plans the atomic clear-then-extract refresh of a stale or missing
/// cache. Extraction happens only in the staging directory; the cache path
/// itself is touched by whole-tree operations alone.
pub fn refresh_plan(cache_dir: &[u8], staging_dir: &[u8]) -> (r: Vec<RefreshStep>)
    requires
        staging_dir@ != cache_dir@,
    ensures
        is_refresh_plan(r@, cache_dir@, staging_dir@),
{
    let mut plan: Vec<RefreshStep> = Vec::new();
    plan.push(RefreshStep::RemoveDir(vstd::slice::slice_to_vec(staging_dir)));
    plan.push(RefreshStep::ExtractInto(vstd::slice::slice_to_vec(staging_dir)));
    plan.push(RefreshStep::RemoveDir(vstd::slice::slice_to_vec(cache_dir)));
    plan.push(
        RefreshStep::Rename(
            vstd::slice::slice_to_vec(staging_dir),
            vstd::slice::slice_to_vec(cache_dir),
        ),
    );
    plan
}

/// Law of atomic visibility: in a refresh plan, every extraction step
/// writes the staging path and never the cache path, and the only steps
/// that touch the cache path are a whole-tree removal and the final atomic
/// rename. A process observing the cache path mid-refresh — or after a
/// crash mid-extraction — therefore finds the complete prior tree, no tree
/// at all, or the complete new tree, never a partially written one.
pub proof fn lemma_atomic_visibility(
    plan: Seq<RefreshStep>,
    cache_dir: Seq<u8>,
    staging_dir: Seq<u8>,
)
    requires
        is_refresh_plan(plan, cache_dir, staging_dir),
        staging_dir != cache_dir,
    ensures
        forall|i: int|
            0 <= i < plan.len() ==> ((#[trigger] plan[i]) matches RefreshStep::ExtractInto(p)
                ==> p@ == staging_dir && p@ != cache_dir),
        forall|i: int|
            0 <= i < plan.len() && step_writes(#[trigger] plan[i]) == cache_dir ==> !(plan[i]
                matches RefreshStep::ExtractInto(_)),
{
}

} // verus!
