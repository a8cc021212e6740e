use warp_runner::archive::{locate_payload, read_archive, ArchiveEntry, PayloadLocation};
use warp_runner::cache::{
    classify_cache, needs_refresh, refresh_plan, resolve_cache_path, staging_path, CacheStatus,
    RefreshStep,
};
use warp_runner::delegate::{delegate_outcome, failure_exit_code};
use warp_runner::descriptor::{decode_target_name, is_valid_utf8};
use warp_runner::errors::LauncherError;
use warp_runner::paths::{check_relative_path, entry_destination};

const MAGIC: [u8; 8] = [87, 65, 82, 80, 75, 71, 48, 49];

fn entry_bytes(kind: u8, path: &[u8], data: &[u8]) -> Vec<u8> {
    let mut out = vec![kind];
    out.extend_from_slice(&(path.len() as u32).to_le_bytes());
    out.extend_from_slice(path);
    out.extend_from_slice(&(data.len() as u32).to_le_bytes());
    out.extend_from_slice(data);
    out
}

fn file_with_payload(payload: &[u8]) -> Vec<u8> {
    let mut file = b"launcher machine code".to_vec();
    file.extend_from_slice(payload);
    file.extend_from_slice(&MAGIC);
    file.extend_from_slice(&(payload.len() as u64).to_le_bytes());
    file
}

#[test]
fn decode_plain_name() {
    let name = decode_target_name(b"bin/app\0padding").expect("well-formed buffer");
    assert_eq!(name, b"bin/app".to_vec());
}

#[test]
fn decode_takes_first_sentinel() {
    let name = decode_target_name(b"a\0b\0").expect("well-formed buffer");
    assert_eq!(name, b"a".to_vec());
}

#[test]
fn decode_multibyte_name() {
    let name = decode_target_name("caf\u{e9}\0".as_bytes()).expect("valid text");
    assert_eq!(name, "caf\u{e9}".as_bytes().to_vec());
}

#[test]
fn missing_sentinel_is_fatal_before_any_filesystem_access() {
    // The decoder sees nothing but these bytes, so the failure is decided
    // before any path is even composed.
    let err = decode_target_name(b"no terminator here").unwrap_err();
    assert_eq!(err, LauncherError::MalformedBuildConstant);
}

#[test]
fn empty_buffer_is_malformed() {
    let err = decode_target_name(b"").unwrap_err();
    assert_eq!(err, LauncherError::MalformedBuildConstant);
}

#[test]
fn empty_name_is_malformed() {
    let err = decode_target_name(b"\0rest").unwrap_err();
    assert_eq!(err, LauncherError::MalformedBuildConstant);
}

#[test]
fn invalid_text_is_malformed() {
    let err = decode_target_name(b"ab\xffcd\0").unwrap_err();
    assert_eq!(err, LauncherError::MalformedBuildConstant);
}

#[test]
fn utf8_judgments() {
    assert!(is_valid_utf8(b""));
    assert!(is_valid_utf8(b"plain ascii"));
    assert!(is_valid_utf8("caf\u{e9} \u{4e16}\u{754c} \u{1f680}".as_bytes()));
    // Stray continuation byte.
    assert!(!is_valid_utf8(&[0x80]));
    // Overlong encoding of NUL.
    assert!(!is_valid_utf8(&[0xC0, 0x80]));
    // Encoded surrogate.
    assert!(!is_valid_utf8(&[0xED, 0xA0, 0x80]));
    // Above U+10FFFF.
    assert!(!is_valid_utf8(&[0xF4, 0x90, 0x80, 0x80]));
    // Truncated sequence.
    assert!(!is_valid_utf8(&[0xE2, 0x82]));
}

#[test]
fn cache_path_is_deterministic_composition() {
    let p = resolve_cache_path(b"/home/user/.local/share", b"tool.bin");
    assert_eq!(p, b"/home/user/.local/share/warp/packages/tool.bin".to_vec());
    let again = resolve_cache_path(b"/home/user/.local/share", b"tool.bin");
    assert_eq!(p, again);
}

#[test]
fn default_cache_path_ends_with_namespace_and_name() {
    // The local-data root is the machine's business; the tail of the path
    // is this library's contract.
    match warp_runner::cache::default_cache_path(b"tool.bin") {
        Ok(p) => {
            assert!(p.ends_with(b"/warp/packages/tool.bin"));
        }
        Err(e) => assert_eq!(e, LauncherError::EnvironmentError),
    }
}

#[test]
fn fresh_cache_is_not_refreshed() {
    assert_eq!(classify_cache(Some(7), 7), CacheStatus::Fresh);
    assert_eq!(classify_cache(Some(8), 7), CacheStatus::Fresh);
    assert!(!needs_refresh(Some(7), 7));
}

#[test]
fn stale_and_missing_force_refresh() {
    assert_eq!(classify_cache(Some(6), 7), CacheStatus::Stale);
    assert_eq!(classify_cache(None, 7), CacheStatus::Missing);
    assert!(needs_refresh(Some(6), 7));
    assert!(needs_refresh(None, 7));
}

#[test]
fn freshness_idempotence_across_runs() {
    // With the launcher's mtime and the cache unchanged, every one of N
    // runs takes the fast path: the extractor is invoked zero times.
    let cache_mtime = Some(100u64);
    let launcher_mtime = 90u64;
    let mut extractions = 0;
    for _ in 0..5 {
        if needs_refresh(cache_mtime, launcher_mtime) {
            extractions += 1;
        }
    }
    assert_eq!(extractions, 0);
}

#[test]
fn bumped_launcher_triggers_one_refresh() {
    // An upgrade bumps the launcher's mtime forward: the next run must
    // clear and re-extract; a completed refresh makes later runs fresh.
    let cache_mtime = 100u64;
    assert!(!needs_refresh(Some(cache_mtime), 90));
    let bumped = 150u64;
    assert!(needs_refresh(Some(cache_mtime), bumped));
    let refreshed = 150u64;
    assert!(!needs_refresh(Some(refreshed), bumped));
}

#[test]
fn refresh_plan_touches_cache_only_atomically() {
    let cache = b"/data/warp/packages/tool".to_vec();
    let staging = staging_path(&cache, b"4711");
    assert_eq!(staging, b"/data/warp/packages/tool.staging-4711".to_vec());
    let plan = refresh_plan(&cache, &staging);
    assert_eq!(plan.len(), 4);
    // Every step before the final rename leaves the cache path alone,
    // except the whole-tree removal that immediately precedes the rename:
    // a crash at any point leaves the old complete tree or no tree, never
    // a partially extracted one.
    match &plan[0] {
        RefreshStep::RemoveDir(p) => assert_eq!(p, &staging),
        other => panic!("unexpected step {:?}", other),
    }
    match &plan[1] {
        RefreshStep::ExtractInto(p) => {
            assert_eq!(p, &staging);
            assert_ne!(p, &cache);
        }
        other => panic!("unexpected step {:?}", other),
    }
    match &plan[2] {
        RefreshStep::RemoveDir(p) => assert_eq!(p, &cache),
        other => panic!("unexpected step {:?}", other),
    }
    match &plan[3] {
        RefreshStep::Rename(from, to) => {
            assert_eq!(from, &staging);
            assert_eq!(to, &cache);
        }
        other => panic!("unexpected step {:?}", other),
    }
}

#[test]
fn interrupted_refresh_preserves_prior_tree() {
    // Simulate a crash after each prefix of the plan over a model of the
    // filesystem: the cache path holds the old complete tree or nothing
    // (or, after the rename, the new complete tree) — never a partial one.
    let cache = b"/data/warp/packages/tool".to_vec();
    let staging = staging_path(&cache, b"1");
    let plan = refresh_plan(&cache, &staging);
    for crash_after in 0..=plan.len() {
        let mut at_cache: Option<&str> = Some("old-complete");
        let mut at_staging: Option<&str> = None;
        for step in plan.iter().take(crash_after) {
            match step {
                RefreshStep::RemoveDir(p) => {
                    if *p == cache {
                        at_cache = None;
                    } else if *p == staging {
                        at_staging = None;
                    }
                }
                RefreshStep::ExtractInto(p) => {
                    assert_ne!(*p, cache, "extraction must never write the cache path");
                    at_staging = Some("new-complete");
                }
                RefreshStep::Rename(from, to) => {
                    assert_eq!(*from, staging);
                    assert_eq!(*to, cache);
                    at_cache = at_staging.take();
                }
            }
        }
        assert!(
            at_cache == Some("old-complete")
                || at_cache.is_none()
                || at_cache == Some("new-complete")
        );
    }
}

#[test]
fn safe_and_unsafe_paths() {
    assert!(check_relative_path(b"bin/app"));
    assert!(check_relative_path(b"a"));
    assert!(check_relative_path(b"deep/ly/nested/file.txt"));
    assert!(check_relative_path(b"not..traversal/file..name"));
    assert!(!check_relative_path(b""));
    assert!(!check_relative_path(b"/etc/passwd"));
    assert!(!check_relative_path(b"../../evil"));
    assert!(!check_relative_path(b"ok/../evil"));
    assert!(!check_relative_path(b"ok/.."));
    assert!(!check_relative_path(b"."));
    assert!(!check_relative_path(b"./x"));
    assert!(!check_relative_path(b"a//b"));
    assert!(!check_relative_path(b"a/"));
    assert!(!check_relative_path(b"a\\b"));
    assert!(!check_relative_path(b"a\0b"));
}

#[test]
fn entry_destination_extends_destination() {
    let d = entry_destination(b"/cache/tool", b"bin/app");
    assert_eq!(d, b"/cache/tool/bin/app".to_vec());
    assert!(d.starts_with(b"/cache/tool/"));
}

#[test]
fn locate_payload_reads_trailer() {
    let payload = b"archive bytes";
    let file = file_with_payload(payload);
    let file_len = file.len() as u64;
    let tail = &file[file.len() - 16..];
    let loc = locate_payload(file_len, tail).expect("valid trailer");
    assert_eq!(
        loc,
        PayloadLocation {
            offset: file_len - 16 - payload.len() as u64,
            len: payload.len() as u64,
        }
    );
    let carved = &file[loc.offset as usize..(loc.offset + loc.len) as usize];
    assert_eq!(carved, payload);
}

#[test]
fn locate_payload_rejects_bad_magic() {
    let mut file = file_with_payload(b"archive");
    let n = file.len();
    file[n - 16] ^= 0xFF;
    let err = locate_payload(n as u64, &file[n - 16..]).unwrap_err();
    assert_eq!(err, LauncherError::ExtractionCorrupt);
}

#[test]
fn locate_payload_rejects_oversized_length() {
    let mut file = b"tiny".to_vec();
    file.extend_from_slice(&MAGIC);
    file.extend_from_slice(&u64::MAX.to_le_bytes());
    let n = file.len();
    let err = locate_payload(n as u64, &file[n - 16..]).unwrap_err();
    assert_eq!(err, LauncherError::ExtractionCorrupt);
}

#[test]
fn archive_round_trip() {
    let mut payload = Vec::new();
    payload.extend_from_slice(&entry_bytes(0, b"bin", b""));
    payload.extend_from_slice(&entry_bytes(2, b"bin/app", b"#!/bin/sh\nexit 0\n"));
    payload.extend_from_slice(&entry_bytes(1, b"share/readme", b"hello"));
    let entries = read_archive(&payload).expect("well-formed archive");
    assert_eq!(
        entries,
        vec![
            ArchiveEntry { kind: 0, path: b"bin".to_vec(), data: b"".to_vec() },
            ArchiveEntry {
                kind: 2,
                path: b"bin/app".to_vec(),
                data: b"#!/bin/sh\nexit 0\n".to_vec(),
            },
            ArchiveEntry { kind: 1, path: b"share/readme".to_vec(), data: b"hello".to_vec() },
        ]
    );
}

#[test]
fn empty_archive_is_empty() {
    let entries = read_archive(b"").expect("empty archive parses");
    assert!(entries.is_empty());
}

#[test]
fn truncated_archive_is_corrupt() {
    let whole = entry_bytes(1, b"f", b"data");
    for cut in 1..whole.len() {
        let err = read_archive(&whole[..cut]).unwrap_err();
        assert_eq!(err, LauncherError::ExtractionCorrupt);
    }
}

#[test]
fn unknown_kind_is_corrupt() {
    let payload = entry_bytes(3, b"f", b"");
    let err = read_archive(&payload).unwrap_err();
    assert_eq!(err, LauncherError::ExtractionCorrupt);
}

#[test]
fn directory_with_data_is_corrupt() {
    let payload = entry_bytes(0, b"d", b"stray");
    let err = read_archive(&payload).unwrap_err();
    assert_eq!(err, LauncherError::ExtractionCorrupt);
}

#[test]
fn traversal_entry_is_rejected() {
    // No byte of this archive may end up outside the destination: the
    // whole archive is refused before anything is materialized.
    let mut payload = Vec::new();
    payload.extend_from_slice(&entry_bytes(1, b"fine", b"x"));
    payload.extend_from_slice(&entry_bytes(1, b"../../evil", b"y"));
    let err = read_archive(&payload).unwrap_err();
    assert_eq!(err, LauncherError::ExtractionUnsafePath);
}

#[test]
fn absolute_entry_is_rejected() {
    let payload = entry_bytes(1, b"/etc/cron.d/job", b"y");
    let err = read_archive(&payload).unwrap_err();
    assert_eq!(err, LauncherError::ExtractionUnsafePath);
}

#[test]
fn exit_code_passthrough() {
    assert_eq!(delegate_outcome(Some(0)), Ok(0));
    assert_eq!(delegate_outcome(Some(1)), Ok(1));
    assert_eq!(delegate_outcome(Some(42)), Ok(42));
}

#[test]
fn failed_launch_is_fatal() {
    assert_eq!(delegate_outcome(None), Err(LauncherError::LaunchError));
    let code = failure_exit_code();
    assert_ne!(code, 0);
}
