//! The payload convention and the embedded archive format.
//!
//! The packer appends the archive to the launcher executable and closes the
//! file with a sixteen-byte trailer: an eight-byte magic marker followed by
//! the archive's length as a little-endian unsigned quantity. The archive
//! itself is a flat sequence of entries; each entry is a kind byte
//! (directory, file, or executable file), a four-byte little-endian path
//! length, the relative path, a four-byte little-endian data length, and
//! the data. A directory entry carries no data, and directory entries
//! precede the files below them by the packer's convention.

use vstd::prelude::*;

use crate::errors::LauncherError;
use crate::paths::is_safe_relative_path;

verus! {

/// The trailer's magic marker.
pub open spec fn trailer_magic() -> Seq<u8> {
    seq![87u8, 65u8, 82u8, 80u8, 75u8, 71u8, 48u8, 49u8]
}

/// Where the embedded archive lies inside the launcher file.
#[derive(Clone, Copy, Debug, PartialEq, Eq, Structural)]
pub struct PayloadLocation {
    /// First byte of the archive within the launcher file.
    pub offset: u64,
    /// Length of the archive in bytes.
    pub len: u64,
}

/// What a sixteen-byte trailer at the end of a launcher file of
/// `file_len` bytes denotes: the archive's range, if the magic matches and
/// the recorded length fits in front of the trailer.
pub open spec fn locate_spec(file_len: u64, tail: Seq<u8>) -> Option<PayloadLocation>
    recommends
        tail.len() == 16,
        file_len >= 16,
{
    if tail.subrange(0, 8) != trailer_magic() {
        None
    } else {
        let plen = vstd::bytes::spec_u64_from_le_bytes(tail.subrange(8, 16));
        if plen <= file_len - 16 {
            Some(PayloadLocation { offset: (file_len - 16 - plen) as u64, len: plen })
        } else {
            None
        }
    }
}

/// The magic marker as a vector.
fn magic_vec() -> (r: Vec<u8>)
    ensures
        r@ == trailer_magic(),
{
    let mut v: Vec<u8> = Vec::new();
    v.push(87);
    v.push(65);
    v.push(82);
    v.push(80);
    v.push(75);
    v.push(71);
    v.push(48);
    v.push(49);
    proof {
        assert(v@ =~= trailer_magic());
    }
    v
}

/// Reads the trailer: the payload's position inside the launcher file, or
/// `ExtractionCorrupt` exactly when the magic is absent or the recorded
/// length cannot fit in front of the trailer.
pub fn locate_payload(file_len: u64, tail: &[u8]) -> (r: Result<PayloadLocation, LauncherError>)
    requires
        tail@.len() == 16,
        file_len >= 16,
    ensures
        match r {
            Ok(loc) => locate_spec(file_len, tail@) == Some(loc) && loc.offset + loc.len
                == file_len - 16,
            Err(e) => locate_spec(file_len, tail@) is None && e
                == LauncherError::ExtractionCorrupt,
        },
{
    let magic = magic_vec();
    let mut i: usize = 0;
    while i < 8
        invariant
            i <= 8,
            tail@.len() == 16,
            magic@ == trailer_magic(),
            forall|k: int| 0 <= k < i ==> tail@[k] == trailer_magic()[k],
        decreases 8 - i,
    {
        if tail[i] != magic[i] {
            proof {
                assert(tail@.subrange(0, 8)[i as int] != trailer_magic()[i as int]);
            }
            return Err(LauncherError::ExtractionCorrupt);
        }
        i = i + 1;
    }
    proof {
        assert(tail@.subrange(0, 8) =~= trailer_magic());
    }
    let len_bytes = vstd::slice::slice_subrange(tail, 8, 16);
    let plen = vstd::bytes::u64_from_le_bytes(len_bytes);
    if plen <= file_len - 16 {
        Ok(PayloadLocation { offset: file_len - 16 - plen, len: plen })
    } else {
        Err(LauncherError::ExtractionCorrupt)
    }
}

/// One materialized archive entry.
#[derive(Clone, Debug, PartialEq, Eq)]
pub struct ArchiveEntry {
    /// 0 for a directory, 1 for a regular file, 2 for an executable file.
    pub kind: u8,
    /// Relative path of the entry below the destination directory.
    pub path: Vec<u8>,
    /// File contents; empty for a directory.
    pub data: Vec<u8>,
}

/// The mathematical shadow of an entry: kind, path bytes, data bytes.
pub open spec fn entry_model(e: ArchiveEntry) -> (u8, Seq<u8>, Seq<u8>) {
    (e.kind, e.path@, e.data@)
}

pub open spec fn entries_model(es: Seq<ArchiveEntry>) -> Seq<(u8, Seq<u8>, Seq<u8>)> {
    es.map_values(|e: ArchiveEntry| entry_model(e))
}

/// Parses the entry at the front of `s`: its model and the number of bytes
/// it occupies, or `None` if `s` starts with no well-formed entry.
pub open spec fn parse_entry(s: Seq<u8>) -> Option<((u8, Seq<u8>, Seq<u8>), int)> {
    if s.len() < 5 {
        None
    } else {
        let kind = s[0];
        let plen = vstd::bytes::spec_u32_from_le_bytes(s.subrange(1, 5)) as int;
        if kind > 2 {
            None
        } else if s.len() < 9 + plen {
            None
        } else {
            let path = s.subrange(5, 5 + plen);
            let dlen = vstd::bytes::spec_u32_from_le_bytes(s.subrange(5 + plen, 9 + plen)) as int;
            if s.len() < 9 + plen + dlen {
                None
            } else if kind == 0 && dlen != 0 {
                None
            } else {
                Some(((kind, path, s.subrange(9 + plen, 9 + plen + dlen)), 9 + plen + dlen))
            }
        }
    }
}

/// Parses a whole archive: the sequence of entry models, or `None` if any
/// byte fails to belong to a well-formed entry.
pub open spec fn parse_archive(s: Seq<u8>) -> Option<Seq<(u8, Seq<u8>, Seq<u8>)>>
    decreases s.len(),
{
    if s.len() == 0 {
        Some(Seq::empty())
    } else {
        match parse_entry(s) {
            None => None,
            Some((e, used)) => match parse_archive(s.skip(used)) {
                None => None,
                Some(rest) => Some(seq![e] + rest),
            },
        }
    }
}

/// Prefixes already-parsed entries onto the result of parsing the rest.
pub open spec fn opt_concat(
    prefix: Seq<(u8, Seq<u8>, Seq<u8>)>,
    rest: Option<Seq<(u8, Seq<u8>, Seq<u8>)>>,
) -> Option<Seq<(u8, Seq<u8>, Seq<u8>)>> {
    match rest {
        Some(r) => Some(prefix + r),
        None => None,
    }
}

/// Parses the payload into its entries, or `ExtractionCorrupt` exactly
/// when the payload is no well-formed archive.
pub fn parse_entries(payload: &[u8]) -> (r: Result<Vec<ArchiveEntry>, LauncherError>)
    ensures
        match r {
            Ok(es) => parse_archive(payload@) == Some(entries_model(es@)),
            Err(e) => parse_archive(payload@) is None && e == LauncherError::ExtractionCorrupt,
        },
{
    let n = payload.len();
    let mut pos: usize = 0;
    let mut out: Vec<ArchiveEntry> = Vec::new();
    proof {
        assert(payload@.skip(0) =~= payload@);
        assert(entries_model(out@) =~= Seq::<(u8, Seq<u8>, Seq<u8>)>::empty());
    }
    while pos < n
        invariant
            pos <= n,
            n == payload@.len(),
            parse_archive(payload@) == opt_concat(
                entries_model(out@),
                parse_archive(payload@.skip(pos as int)),
            ),
        decreases n - pos,
    {
        let ghost t = payload@.skip(pos as int);
        proof {
            assert(t.len() == n - pos);
            assert(t[0] == payload@[pos as int]);
        }
        if n - pos < 5 {
            return Err(LauncherError::ExtractionCorrupt);
        }
        let kind = payload[pos];
        let plen_bytes = vstd::slice::slice_subrange(payload, pos + 1, pos + 5);
        let plen32 = vstd::bytes::u32_from_le_bytes(plen_bytes);
        let plen = plen32 as usize;
        proof {
            assert(t.subrange(1, 5) =~= payload@.subrange(pos + 1, pos + 5));
        }
        if kind > 2 {
            return Err(LauncherError::ExtractionCorrupt);
        }
        if n - pos - 5 < plen {
            return Err(LauncherError::ExtractionCorrupt);
        }
        if n - pos - 5 - plen < 4 {
            return Err(LauncherError::ExtractionCorrupt);
        }
        let dlen_bytes = vstd::slice::slice_subrange(payload, pos + 5 + plen, pos + 9 + plen);
        let dlen32 = vstd::bytes::u32_from_le_bytes(dlen_bytes);
        let dlen = dlen32 as usize;
        proof {
            assert(t.subrange(5 + plen as int, 9 + plen as int) =~= payload@.subrange(
                pos + 5 + plen,
                pos + 9 + plen,
            ));
        }
        if n - pos - 9 - plen < dlen {
            return Err(LauncherError::ExtractionCorrupt);
        }
        if kind == 0 && dlen != 0 {
            return Err(LauncherError::ExtractionCorrupt);
        }
        let path_bytes = vstd::slice::slice_subrange(payload, pos + 5, pos + 5 + plen);
        let path = vstd::slice::slice_to_vec(path_bytes);
        let data_bytes = vstd::slice::slice_subrange(
            payload,
            pos + 9 + plen,
            pos + 9 + plen + dlen,
        );
        let data = vstd::slice::slice_to_vec(data_bytes);
        let entry = ArchiveEntry { kind, path, data };
        let used = 9 + plen + dlen;
        proof {
            assert(t.subrange(5, 5 + plen as int) =~= payload@.subrange(pos + 5, pos + 5 + plen));
            assert(t.subrange(9 + plen as int, 9 + plen as int + dlen as int) =~= payload@.subrange(
                pos + 9 + plen,
                pos + 9 + plen + dlen,
            ));
            assert(parse_entry(t) == Some((entry_model(entry), used as int)));
            assert(t.skip(used as int) =~= payload@.skip(pos + used));
            let rest = parse_archive(t.skip(used as int));
            assert(parse_archive(t) == opt_concat(seq![entry_model(entry)], rest));
            assert(entries_model(out@.push(entry)) =~= entries_model(out@) + seq![
                entry_model(entry),
            ]);
            if rest is Some {
                assert(entries_model(out@) + (seq![entry_model(entry)] + rest.unwrap())
                    =~= entries_model(out@.push(entry)) + rest.unwrap());
            }
        }
        out.push(entry);
        pos = pos + used;
    }
    proof {
        assert(payload@.skip(n as int) =~= Seq::<u8>::empty());
        assert(entries_model(out@) + Seq::<(u8, Seq<u8>, Seq<u8>)>::empty() =~= entries_model(
            out@,
        ));
    }
    Ok(out)
}

/// Every entry of the archive names a safe relative path.
pub open spec fn all_paths_safe(models: Seq<(u8, Seq<u8>, Seq<u8>)>) -> bool {
    forall|i: int| 0 <= i < models.len() ==> is_safe_relative_path((#[trigger] models[i]).1)
}

/// Checks every entry's path, answering `ExtractionUnsafePath` exactly
/// when some entry would escape the destination directory.
pub fn check_entry_paths(entries: &Vec<ArchiveEntry>) -> (r: Result<(), LauncherError>)
    ensures
        match r {
            Ok(_) => all_paths_safe(entries_model(entries@)),
            Err(e) => !all_paths_safe(entries_model(entries@)) && e
                == LauncherError::ExtractionUnsafePath,
        },
{
    let n = entries.len();
    let mut i: usize = 0;
    while i < n
        invariant
            i <= n,
            n == entries@.len(),
            forall|j: int|
                0 <= j < i ==> is_safe_relative_path((#[trigger] entries_model(entries@)[j]).1),
        decreases n - i,
    {
        if !crate::paths::check_relative_path(entries[i].path.as_slice()) {
            proof {
                assert(!is_safe_relative_path(entries_model(entries@)[i as int].1));
            }
            return Err(LauncherError::ExtractionUnsafePath);
        }
        i = i + 1;
    }
    Ok(())
}

/// Parses the payload and admits it only if every entry is safe: the
/// entries to materialize, or `ExtractionCorrupt` exactly when the payload
/// does not parse, or `ExtractionUnsafePath` when it parses but some entry
/// would escape the destination.
pub fn read_archive(payload: &[u8]) -> (r: Result<Vec<ArchiveEntry>, LauncherError>)
    ensures
        match r {
            Ok(es) => {
                &&& parse_archive(payload@) == Some(entries_model(es@))
                &&& all_paths_safe(entries_model(es@))
            },
            Err(e) => {
                &&& (e == LauncherError::ExtractionCorrupt <==> parse_archive(payload@) is None)
                &&& (e == LauncherError::ExtractionUnsafePath <==> (parse_archive(payload@)
                    matches Some(m) && !all_paths_safe(m)))
                &&& (e == LauncherError::ExtractionCorrupt || e
                    == LauncherError::ExtractionUnsafePath)
            },
        },
{
    let entries = match parse_entries(payload) {
        Ok(es) => es,
        Err(e) => {
            return Err(e);
        },
    };
    match check_entry_paths(&entries) {
        Ok(_) => Ok(entries),
        Err(e) => Err(e),
    }
}

} // verus!
