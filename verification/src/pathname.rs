//! Paths as byte sequences, and extraction of the final path component.
//!
//! A path is modelled as the sequence of bytes the operating system
//! stores. Which bytes separate segments depends on the platform: `/`
//! everywhere, and `\` as well on Windows. A Windows path may also open
//! with a prefix that no component ever comes from: a drive (`C:`), or a
//! server and share named after two leading separators (`\\server\share`,
//! which also covers the verbatim and device forms). The final component
//! is the last segment after the prefix, with trailing separators and
//! `.` segments set aside; a path whose last meaningful segment is `..`,
//! or that holds no segment after its prefix, has no final component.

use vstd::prelude::*;

use crate::Platform;

verus! {

/// The path-segment separator of every platform, `/`.
pub const SLASH: u8 = 0x2F;

/// The alternative separator Windows accepts, `\`.
pub const BACKSLASH: u8 = 0x5C;

/// The drive-letter delimiter of a Windows path, `:`.
pub const COLON: u8 = 0x3A;

/// The leading byte of the dot convention, `.`.
pub const DOT: u8 = 0x2E;

/// Whether `b` separates path segments on `platform`: `/` everywhere,
/// and `\` as well on Windows.
pub open spec fn is_separator(b: u8, platform: Platform) -> bool {
    b == SLASH || (platform == Platform::Windows && b == BACKSLASH)
}

/// An ASCII letter, as a Windows drive name.
pub open spec fn is_ascii_letter(b: u8) -> bool {
    (0x41 <= b <= 0x5A) || (0x61 <= b <= 0x7A)
}

/// The end of the segment that starts at index `i` of `s`: the first
/// position at or after `i` that holds a separator, or the end of `s`.
pub open spec fn segment_end(s: Seq<u8>, i: int, platform: Platform) -> int
    decreases s.len() - i,
{
    if i >= s.len() {
        s.len() as int
    } else if is_separator(s[i], platform) {
        i
    } else {
        segment_end(s, i + 1, platform)
    }
}

/// The first position at or after `i` of `s` that holds no separator,
/// or the end of `s`.
pub open spec fn skip_separators(s: Seq<u8>, i: int, platform: Platform) -> int
    decreases s.len() - i,
{
    if i >= s.len() {
        s.len() as int
    } else if is_separator(s[i], platform) {
        skip_separators(s, i + 1, platform)
    } else {
        i
    }
}

/// The length of the prefix of `s` that path components never come
/// from. Only Windows paths have one: a drive (`C:`), or, after two
/// leading separators, a server name and a share name (`\\server\share`;
/// the verbatim `\\?\` and device `\\.\` forms parse the same way). On
/// every other platform the prefix is empty.
pub open spec fn spec_prefix_len(s: Seq<u8>, platform: Platform) -> int {
    if platform != Platform::Windows {
        0
    } else if s.len() >= 2 && is_ascii_letter(s[0]) && s[1] == COLON {
        2
    } else if s.len() >= 2 && is_separator(s[0], platform) && is_separator(s[1], platform) {
        segment_end(
            s,
            skip_separators(s, segment_end(s, 2, platform), platform),
            platform,
        )
    } else {
        0
    }
}

/// The index where the last segment of `s` begins, never before `lo`:
/// the position right after the last separator, or `lo` when no
/// separator stands at or after `lo`.
pub open spec fn last_segment_start(s: Seq<u8>, lo: int, platform: Platform) -> int
    decreases s.len(),
{
    if s.len() == 0 || s.len() <= lo {
        lo
    } else if is_separator(s[s.len() - 1], platform) {
        s.len() as int
    } else {
        last_segment_start(s.drop_last(), lo, platform)
    }
}

/// The final component of `s` taken from the region after index `lo`:
/// the last segment, with trailing separators and `.` segments set
/// aside; `None` when no segment is left or the last one is `..`.
pub open spec fn spec_file_name_after(s: Seq<u8>, lo: int, platform: Platform) -> Option<Seq<u8>>
    decreases s.len(),
{
    if s.len() == 0 || s.len() <= lo {
        None
    } else if is_separator(s[s.len() - 1], platform) {
        spec_file_name_after(s.drop_last(), lo, platform)
    } else {
        let seg = s.subrange(last_segment_start(s, lo, platform), s.len() as int);
        if seg.len() == 1 && seg[0] == DOT {
            spec_file_name_after(s.drop_last(), lo, platform)
        } else if seg.len() == 2 && seg[0] == DOT && seg[1] == DOT {
            None
        } else {
            Some(seg)
        }
    }
}

/// The final component of the path `s` on `platform`: the last segment
/// after the platform's path prefix, with trailing separators and `.`
/// segments set aside; `None` for a path with no segment after its
/// prefix (empty, a root, a bare drive or share) and for a path that
/// ends in a `..` segment.
pub open spec fn spec_file_name(s: Seq<u8>, platform: Platform) -> Option<Seq<u8>> {
    spec_file_name_after(s, spec_prefix_len(s, platform), platform)
}

/// The start of the last segment lies between `lo` and the end of `s`,
/// and strictly before the end when `s` is longer than `lo` and does
/// not end in a separator.
pub proof fn lemma_last_segment_start_bounds(s: Seq<u8>, lo: int, platform: Platform)
    requires
        0 <= lo,
    ensures
        lo <= last_segment_start(s, lo, platform),
        lo <= s.len() ==> last_segment_start(s, lo, platform) <= s.len(),
        s.len() > lo && !is_separator(s[s.len() - 1], platform) ==> last_segment_start(
            s,
            lo,
            platform,
        ) < s.len(),
    decreases s.len(),
{
    if s.len() > lo && !is_separator(s[s.len() - 1], platform) {
        lemma_last_segment_start_bounds(s.drop_last(), lo, platform);
    }
}

/// A filesystem path, held as the raw bytes the operating system uses.
#[derive(Debug)]
pub struct FsPath {
    bytes: Vec<u8>,
}

impl View for FsPath {
    type V = Seq<u8>;

    closed spec fn view(&self) -> Seq<u8> {
        self.bytes@
    }
}

impl FsPath {
    /// Wraps the raw bytes of a path.
    pub fn new(bytes: Vec<u8>) -> (r: FsPath)
        ensures
            r@ == bytes@,
    {
        FsPath { bytes }
    }

    /// The raw bytes of the path.
    pub fn as_bytes(&self) -> (r: &[u8])
        ensures
            r@ == self@,
    {
        self.bytes.as_slice()
    }

    /// The final component of the path on `platform`, or `None` when it
    /// has none.
    pub fn file_name(&self, platform: Platform) -> (r: Option<Vec<u8>>)
        ensures
            (match r {
                Some(name) => spec_file_name(self@, platform) == Some(name@),
                None => spec_file_name(self@, platform) is None,
            }),
    {
        file_name(self.bytes.as_slice(), platform)
    }
}

/// Whether `b` separates path segments on `platform`.
fn separator(b: u8, platform: Platform) -> (r: bool)
    ensures
        r == is_separator(b, platform),
{
    b == SLASH || (matches!(platform, Platform::Windows) && b == BACKSLASH)
}

/// Whether `b` is an ASCII letter.
fn ascii_letter(b: u8) -> (r: bool)
    ensures
        r == is_ascii_letter(b),
{
    (0x41 <= b && b <= 0x5A) || (0x61 <= b && b <= 0x7A)
}

/// Finds the end of the segment that starts at index `from` of `path`.
fn segment_end_from(path: &[u8], from: usize, platform: Platform) -> (r: usize)
    requires
        from <= path@.len(),
    ensures
        r as int == segment_end(path@, from as int, platform),
        from <= r <= path@.len(),
{
    let n: usize = path.len();
    let mut i: usize = from;
    loop
        invariant
            from <= i <= n,
            n == path@.len(),
            segment_end(path@, from as int, platform) == segment_end(path@, i as int, platform),
        decreases n - i,
    {
        if i >= n {
            return i;
        }
        if separator(path[i], platform) {
            return i;
        }
        i = i + 1;
    }
}

/// Finds the first position at or after `from` of `path` that holds no
/// separator.
fn skip_separators_from(path: &[u8], from: usize, platform: Platform) -> (r: usize)
    requires
        from <= path@.len(),
    ensures
        r as int == skip_separators(path@, from as int, platform),
        from <= r <= path@.len(),
{
    let n: usize = path.len();
    let mut i: usize = from;
    loop
        invariant
            from <= i <= n,
            n == path@.len(),
            skip_separators(path@, from as int, platform) == skip_separators(
                path@,
                i as int,
                platform,
            ),
        decreases n - i,
    {
        if i >= n {
            return i;
        }
        if !separator(path[i], platform) {
            return i;
        }
        i = i + 1;
    }
}

/// Measures the path prefix of `path` on `platform`: the drive or the
/// server-and-share opening of a Windows path, which path components
/// never come from, and 0 on every other platform.
pub fn prefix_len(path: &[u8], platform: Platform) -> (r: usize)
    ensures
        r as int == spec_prefix_len(path@, platform),
        r <= path@.len(),
{
    if !matches!(platform, Platform::Windows) {
        return 0;
    }
    let n: usize = path.len();
    if n >= 2 && ascii_letter(path[0]) && path[1] == COLON {
        return 2;
    }
    if n >= 2 && separator(path[0], platform) && separator(path[1], platform) {
        let server_end = segment_end_from(path, 2, platform);
        let after_server = skip_separators_from(path, server_end, platform);
        let share_end = segment_end_from(path, after_server, platform);
        return share_end;
    }
    0
}

/// Extracts the final component of the path `path` on `platform`, or
/// returns `None` when the path has none.
pub fn file_name(path: &[u8], platform: Platform) -> (r: Option<Vec<u8>>)
    ensures
        (match r {
            Some(name) => spec_file_name(path@, platform) == Some(name@),
            None => spec_file_name(path@, platform) is None,
        }),
{
    let lo: usize = prefix_len(path, platform);
    let mut end: usize = path.len();
    proof {
        assert(path@.take(end as int) =~= path@);
    }
    loop
        invariant
            lo <= end <= path@.len(),
            lo as int == spec_prefix_len(path@, platform),
            spec_file_name(path@, platform) == spec_file_name_after(
                path@.take(end as int),
                lo as int,
                platform,
            ),
        decreases end,
    {
        let ghost end_at_entry: usize = end;
        while end > lo && separator(path[end - 1], platform)
            invariant
                lo <= end <= end_at_entry,
                end <= path@.len(),
                spec_file_name(path@, platform) == spec_file_name_after(
                    path@.take(end as int),
                    lo as int,
                    platform,
                ),
            decreases end,
        {
            proof {
                let t = path@.take(end as int);
                assert(t[t.len() - 1] == path@[end - 1]);
                assert(t.drop_last() =~= path@.take(end as int - 1));
            }
            end = end - 1;
        }
        if end == lo {
            proof {
                assert(path@.take(end as int).len() <= lo);
            }
            return None;
        }
        let mut start: usize = end;
        while start > lo && !separator(path[start - 1], platform)
            invariant
                lo <= start <= end <= path@.len(),
                last_segment_start(path@.take(end as int), lo as int, platform)
                    == last_segment_start(path@.take(start as int), lo as int, platform),
            decreases start,
        {
            proof {
                let t = path@.take(start as int);
                assert(t[t.len() - 1] == path@[start - 1]);
                assert(t.drop_last() =~= path@.take(start as int - 1));
            }
            start = start - 1;
        }
        proof {
            let t = path@.take(end as int);
            if start == lo {
                assert(path@.take(start as int).len() <= lo);
            } else {
                let u = path@.take(start as int);
                assert(u[u.len() - 1] == path@[start - 1]);
            }
            assert(last_segment_start(t, lo as int, platform) == start);
            lemma_last_segment_start_bounds(t, lo as int, platform);
            assert(t[t.len() - 1] == path@[end - 1]);
        }
        let seg_len: usize = end - start;
        assert(seg_len >= 1);
        if seg_len == 1 && path[start] == DOT {
            proof {
                let t = path@.take(end as int);
                let seg = t.subrange(start as int, end as int);
                assert(seg[0] == t[start as int]);
                assert(t.drop_last() =~= path@.take(end as int - 1));
            }
            end = end - 1;
        } else if seg_len == 2 && path[start] == DOT && path[start + 1] == DOT {
            proof {
                let t = path@.take(end as int);
                let seg = t.subrange(start as int, end as int);
                assert(seg[0] == t[start as int]);
                assert(seg[1] == t[start as int + 1]);
            }
            return None;
        } else {
            let mut name: Vec<u8> = Vec::new();
            proof {
                assert(name@ =~= path@.subrange(start as int, start as int));
            }
            let mut j: usize = start;
            while j < end
                invariant
                    start <= j <= end <= path@.len(),
                    name@ == path@.subrange(start as int, j as int),
                decreases end - j,
            {
                name.push(path[j]);
                j = j + 1;
                proof {
                    assert(name@ =~= path@.subrange(start as int, j as int));
                }
            }
            proof {
                let t = path@.take(end as int);
                let seg = t.subrange(start as int, end as int);
                assert(seg =~= name@);
                assert(seg[0] == t[start as int]);
                if seg.len() >= 2 {
                    assert(seg[1] == t[start as int + 1]);
                }
            }
            return Some(name);
        }
    }
}

} // verus!
