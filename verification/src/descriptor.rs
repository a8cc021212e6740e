//! The build-time target descriptor: a fixed-size byte buffer embedded in
//! the launcher by the packer, holding the entry point's relative path
//! terminated by a single NUL sentinel. Decoding scans for the first
//! sentinel and fails fast — a missing sentinel or invalid text is a packer
//! defect, not a runtime condition.

use vstd::prelude::*;

use crate::errors::LauncherError;

verus! {

/// Position of the first NUL byte in `s`, or `s.len()` if there is none.
pub open spec fn first_nul(s: Seq<u8>) -> int
    decreases s.len(),
{
    if s.len() == 0 {
        0
    } else if s[0] == 0u8 {
        0
    } else {
        1 + first_nul(s.skip(1))
    }
}

/// A position that carries a NUL and has none before it is the first NUL.
pub proof fn lemma_first_nul_at(s: Seq<u8>, p: int)
    requires
        0 <= p <= s.len(),
        forall|k: int| 0 <= k < p ==> s[k] != 0u8,
        p < s.len() ==> s[p] == 0u8,
    ensures
        first_nul(s) == p,
    decreases p,
{
    if p > 0 {
        assert(s[0] != 0u8);
        assert(forall|k: int| 0 <= k < p - 1 ==> s.skip(1)[k] == s[k + 1]);
        lemma_first_nul_at(s.skip(1), p - 1);
    }
}

/// A continuation byte of a multi-byte UTF-8 sequence.
pub open spec fn is_utf8_cont(b: u8) -> bool {
    0x80 <= b && b <= 0xBF
}

/// Whether `s` is a valid UTF-8 byte sequence, by the shortest-form rules:
/// one byte below 0x80, or a leading byte in C2..DF, E0..EF or F0..F4
/// followed by the admissible continuation bytes, surrogates and values
/// above U+10FFFF excluded.
pub open spec fn is_utf8(s: Seq<u8>) -> bool
    decreases s.len(),
{
    if s.len() == 0 {
        true
    } else {
        let b0 = s[0];
        if b0 < 0x80 {
            is_utf8(s.skip(1))
        } else if 0xC2 <= b0 && b0 <= 0xDF {
            s.len() >= 2 && is_utf8_cont(s[1]) && is_utf8(s.skip(2))
        } else if b0 == 0xE0 {
            s.len() >= 3 && 0xA0 <= s[1] && s[1] <= 0xBF && is_utf8_cont(s[2]) && is_utf8(
                s.skip(3),
            )
        } else if b0 == 0xED {
            s.len() >= 3 && 0x80 <= s[1] && s[1] <= 0x9F && is_utf8_cont(s[2]) && is_utf8(
                s.skip(3),
            )
        } else if 0xE1 <= b0 && b0 <= 0xEF {
            s.len() >= 3 && is_utf8_cont(s[1]) && is_utf8_cont(s[2]) && is_utf8(s.skip(3))
        } else if b0 == 0xF0 {
            s.len() >= 4 && 0x90 <= s[1] && s[1] <= 0xBF && is_utf8_cont(s[2]) && is_utf8_cont(
                s[3],
            ) && is_utf8(s.skip(4))
        } else if 0xF1 <= b0 && b0 <= 0xF3 {
            s.len() >= 4 && is_utf8_cont(s[1]) && is_utf8_cont(s[2]) && is_utf8_cont(s[3])
                && is_utf8(s.skip(4))
        } else if b0 == 0xF4 {
            s.len() >= 4 && 0x80 <= s[1] && s[1] <= 0x8F && is_utf8_cont(s[2]) && is_utf8_cont(
                s[3],
            ) && is_utf8(s.skip(4))
        } else {
            false
        }
    }
}

/// Checks one encoded scalar value starting at `i`: returns its width, or
/// `None` if the bytes at `i` start no valid sequence.
fn utf8_step(s: &[u8], i: usize) -> (r: Option<usize>)
    requires
        i < s@.len(),
    ensures
        match r {
            Some(w) => {
                &&& 1 <= w <= 4
                &&& i + w <= s@.len()
                &&& is_utf8(s@.skip(i as int)) == is_utf8(s@.skip(i + w))
            },
            None => !is_utf8(s@.skip(i as int)),
        },
{
    let ghost t = s@.skip(i as int);
    let n = s.len();
    let b0 = s[i];
    proof {
        assert(t[0] == s@[i as int]);
        assert(t.len() == s@.len() - i);
    }
    if b0 < 0x80 {
        proof {
            assert(t.skip(1) =~= s@.skip(i + 1));
        }
        Some(1)
    } else if 0xC2 <= b0 && b0 <= 0xDF {
        if n - i >= 2 && 0x80 <= s[i + 1] && s[i + 1] <= 0xBF {
            proof {
                assert(t[1] == s@[i + 1]);
                assert(t.skip(2) =~= s@.skip(i + 2));
            }
            Some(2)
        } else {
            proof {
                assert(t.len() >= 2 ==> t[1] == s@[i + 1]);
            }
            None
        }
    } else if b0 == 0xE0 || b0 == 0xED || (0xE1 <= b0 && b0 <= 0xEF) {
        let lo: u8 = if b0 == 0xE0 {
            0xA0
        } else {
            0x80
        };
        let hi: u8 = if b0 == 0xED {
            0x9F
        } else {
            0xBF
        };
        if n - i >= 3 && lo <= s[i + 1] && s[i + 1] <= hi && 0x80 <= s[i + 2] && s[i + 2] <= 0xBF {
            proof {
                assert(t[1] == s@[i + 1]);
                assert(t[2] == s@[i + 2]);
                assert(t.skip(3) =~= s@.skip(i + 3));
            }
            Some(3)
        } else {
            proof {
                assert(t.len() >= 2 ==> t[1] == s@[i + 1]);
                assert(t.len() >= 3 ==> t[2] == s@[i + 2]);
            }
            None
        }
    } else if 0xF0 <= b0 && b0 <= 0xF4 {
        let lo: u8 = if b0 == 0xF0 {
            0x90
        } else {
            0x80
        };
        let hi: u8 = if b0 == 0xF4 {
            0x8F
        } else {
            0xBF
        };
        if n - i >= 4 && lo <= s[i + 1] && s[i + 1] <= hi && 0x80 <= s[i + 2] && s[i + 2] <= 0xBF
            && 0x80 <= s[i + 3] && s[i + 3] <= 0xBF {
            proof {
                assert(t[1] == s@[i + 1]);
                assert(t[2] == s@[i + 2]);
                assert(t[3] == s@[i + 3]);
                assert(t.skip(4) =~= s@.skip(i + 4));
            }
            Some(4)
        } else {
            proof {
                assert(t.len() >= 2 ==> t[1] == s@[i + 1]);
                assert(t.len() >= 3 ==> t[2] == s@[i + 2]);
                assert(t.len() >= 4 ==> t[3] == s@[i + 3]);
            }
            None
        }
    } else {
        None
    }
}

/// Whether `s` is valid UTF-8.
pub fn is_valid_utf8(s: &[u8]) -> (r: bool)
    ensures
        r == is_utf8(s@),
{
    let n = s.len();
    let mut i: usize = 0;
    proof {
        assert(s@.skip(0) =~= s@);
    }
    while i < n
        invariant
            i <= n,
            n == s@.len(),
            is_utf8(s@) == is_utf8(s@.skip(i as int)),
        decreases n - i,
    {
        match utf8_step(s, i) {
            Some(w) => {
                i = i + w;
            },
            None => {
                return false;
            },
        }
    }
    proof {
        assert(s@.skip(n as int) =~= Seq::<u8>::empty());
    }
    true
}

/// Whether the build-time buffer decodes: it holds a NUL sentinel, the
/// bytes before the first sentinel are non-empty and are valid text.
pub open spec fn descriptor_ok(buf: Seq<u8>) -> bool {
    &&& first_nul(buf) < buf.len()
    &&& first_nul(buf) > 0
    &&& is_utf8(buf.take(first_nul(buf)))
}

/// The decoded target name: the bytes before the first sentinel.
pub open spec fn descriptor_name(buf: Seq<u8>) -> Seq<u8> {
    buf.take(first_nul(buf))
}

/// Finds the first NUL byte, if any.
fn find_nul(buf: &[u8]) -> (r: Option<usize>)
    ensures
        match r {
            Some(p) => p == first_nul(buf@) && p < buf@.len(),
            None => first_nul(buf@) == buf@.len(),
        },
{
    let n = buf.len();
    let mut i: usize = 0;
    while i < n
        invariant
            i <= n,
            n == buf@.len(),
            forall|k: int| 0 <= k < i ==> buf@[k] != 0u8,
        decreases n - i,
    {
        if buf[i] == 0 {
            proof {
                lemma_first_nul_at(buf@, i as int);
            }
            return Some(i);
        }
        i = i + 1;
    }
    proof {
        lemma_first_nul_at(buf@, n as int);
    }
    None
}

/// Copies `src[start..end]` into a fresh vector.
fn copy_range(src: &[u8], start: usize, end: usize) -> (r: Vec<u8>)
    requires
        start <= end <= src@.len(),
    ensures
        r@ == src@.subrange(start as int, end as int),
{
    let mut out: Vec<u8> = Vec::new();
    let mut i: usize = start;
    while i < end
        invariant
            start <= i <= end <= src@.len(),
            out@ == src@.subrange(start as int, i as int),
        decreases end - i,
    {
        out.push(src[i]);
        proof {
            assert(out@ =~= src@.subrange(start as int, i + 1));
        }
        i = i + 1;
    }
    out
}

/// Decodes the target entry point's relative path from the build-time
/// buffer: the bytes up to the first NUL sentinel, which must exist, be
/// non-empty and be valid text. Any violation is a fatal packer defect,
/// reported before any filesystem access is attempted.
pub fn decode_target_name(buf: &[u8]) -> (r: Result<Vec<u8>, LauncherError>)
    ensures
        match r {
            Ok(name) => descriptor_ok(buf@) && name@ == descriptor_name(buf@),
            Err(e) => !descriptor_ok(buf@) && e == LauncherError::MalformedBuildConstant,
        },
{
    let p = match find_nul(buf) {
        Some(p) => p,
        None => {
            return Err(LauncherError::MalformedBuildConstant);
        },
    };
    if p == 0 {
        return Err(LauncherError::MalformedBuildConstant);
    }
    let name = copy_range(buf, 0, p);
    proof {
        assert(name@ =~= buf@.take(p as int));
    }
    if !is_valid_utf8(name.as_slice()) {
        return Err(LauncherError::MalformedBuildConstant);
    }
    Ok(name)
}

} // verus!
