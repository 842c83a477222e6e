//! Interpreting the reparse-point record a filesystem query fills a buffer
//! with: a tagged header, and for symbolic links two counted wide-character
//! paths stored at offsets inside the record.

use crate::pod::Pod;
use vstd::prelude::*;

verus! {

/// The reparse tag marking a symbolic link.
pub const SYMLINK_TAG: u32 = 0xA000000C;

/// Where the symbolic-link path buffer starts: the 8-byte reparse header
/// followed by the 12-byte symbolic-link header.
pub const SYMLINK_PATH_BASE: usize = 20;

/// What a reparse point stands for. A symbolic link carries its substitute
/// path (the target the filesystem follows) and its print path (the name
/// shown to people), each as wide characters; a link is absolute or relative
/// as its flags say. Every other tag is `Other`.
#[derive(Debug, PartialEq, Eq)]
pub enum ReparsePoint {
    AbsoluteSymlink(Vec<u16>, Vec<u16>),
    RelativeSymlink(Vec<u16>, Vec<u16>),
    MountPoint(Vec<u16>, Vec<u16>),
    Other,
}

/// The mathematical value of a [`ReparsePoint`]: the same cases over wide
/// character sequences.
pub enum ReparsePointView {
    AbsoluteSymlink(Seq<u16>, Seq<u16>),
    RelativeSymlink(Seq<u16>, Seq<u16>),
    MountPoint(Seq<u16>, Seq<u16>),
    Other,
}

impl View for ReparsePoint {
    type V = ReparsePointView;

    open spec fn view(&self) -> ReparsePointView {
        match self {
            ReparsePoint::AbsoluteSymlink(s, p) => ReparsePointView::AbsoluteSymlink(s@, p@),
            ReparsePoint::RelativeSymlink(s, p) => ReparsePointView::RelativeSymlink(s@, p@),
            ReparsePoint::MountPoint(s, p) => ReparsePointView::MountPoint(s@, p@),
            ReparsePoint::Other => ReparsePointView::Other,
        }
    }
}

/// The 16-bit little-endian value at byte offset `i`.
pub open spec fn u16_le_at(bytes: Seq<u8>, i: int) -> u16 {
    <u16 as Pod>::decode_spec(bytes.subrange(i, i + 2))
}

/// The 32-bit little-endian value at byte offset `i`.
pub open spec fn u32_le_at(bytes: Seq<u8>, i: int) -> u32 {
    <u32 as Pod>::decode_spec(bytes.subrange(i, i + 4))
}

/// The `count` wide characters stored little-endian at byte offset `off`.
pub open spec fn wide_at(bytes: Seq<u8>, off: int, count: int) -> Seq<u16> {
    Seq::new(count as nat, |j: int| u16_le_at(bytes, off + 2 * j))
}

/// Whether `buf` holds a symbolic-link record whose two counted paths lie
/// entirely within it.
pub open spec fn symlink_paths_in_bounds(buf: Seq<u8>) -> bool {
    &&& SYMLINK_PATH_BASE <= buf.len()
    &&& SYMLINK_PATH_BASE + u16_le_at(buf, 8) + 2 * (u16_le_at(buf, 10) as int / 2) <= buf.len()
    &&& SYMLINK_PATH_BASE + u16_le_at(buf, 12) + 2 * (u16_le_at(buf, 14) as int / 2) <= buf.len()
}

/// The reparse record `buf` holds, when it holds one:
/// `None` for a buffer too short for the reparse header, or for a
/// symbolic-link record whose paths reach outside the buffer;
/// `Some(Other)` for any tag but the symbolic-link tag; and for that tag,
/// the link's substitute and print paths, absolute or relative as bit 0 of
/// the link's flags says.
pub open spec fn spec_parse_reparse_data(buf: Seq<u8>) -> Option<ReparsePointView> {
    if buf.len() < 8 {
        None
    } else if u32_le_at(buf, 0) != SYMLINK_TAG {
        Some(ReparsePointView::Other)
    } else if !symlink_paths_in_bounds(buf) {
        None
    } else {
        let subst = wide_at(
            buf,
            SYMLINK_PATH_BASE + u16_le_at(buf, 8),
            u16_le_at(buf, 10) as int / 2,
        );
        let print = wide_at(
            buf,
            SYMLINK_PATH_BASE + u16_le_at(buf, 12),
            u16_le_at(buf, 14) as int / 2,
        );
        if u32_le_at(buf, 16) % 2 == 0 {
            Some(ReparsePointView::AbsoluteSymlink(subst, print))
        } else {
            Some(ReparsePointView::RelativeSymlink(subst, print))
        }
    }
}

/// Reads the 16-bit little-endian value at byte offset `i`.
fn read_u16_le(buf: &[u8], i: usize) -> (r: u16)
    requires
        i + 2 <= buf@.len(),
    ensures
        r == u16_le_at(buf@, i as int),
{
    let n = buf.len();
    u16::decode(vstd::slice::slice_subrange(buf, i, i + 2))
}

/// Reads the 32-bit little-endian value at byte offset `i`.
fn read_u32_le(buf: &[u8], i: usize) -> (r: u32)
    requires
        i + 4 <= buf@.len(),
    ensures
        r == u32_le_at(buf@, i as int),
{
    let n = buf.len();
    u32::decode(vstd::slice::slice_subrange(buf, i, i + 4))
}

/// Reads the `count` wide characters stored at byte offset `off`.
fn read_wide(buf: &[u8], off: usize, count: usize) -> (r: Vec<u16>)
    requires
        off + 2 * count <= buf@.len(),
    ensures
        r@ == wide_at(buf@, off as int, count as int),
{
    let n = buf.len();
    let mut out: Vec<u16> = Vec::new();
    let mut j: usize = 0;
    while j < count
        invariant
            j <= count,
            n == buf@.len(),
            off + 2 * count <= buf@.len(),
            out@.len() == j,
            forall|k: int| 0 <= k < j ==> out@[k] == u16_le_at(buf@, off + 2 * k),
        decreases count - j,
    {
        let w = read_u16_le(buf, off + 2 * j);
        out.push(w);
        j = j + 1;
    }
    proof {
        assert(out@ =~= wide_at(buf@, off as int, count as int));
    }
    out
}

/// Interprets the record a reparse-point query left in `buf`, as
/// [`spec_parse_reparse_data`] lays it out: `None` for a buffer too short
/// for the header or for a symbolic link whose paths reach outside the
/// buffer, `Some(Other)` for any tag but the symbolic-link tag, and the
/// link's two paths otherwise.
pub fn parse_reparse_data(buf: &[u8]) -> (r: Option<ReparsePoint>)
    ensures
        r is Some <==> spec_parse_reparse_data(buf@) is Some,
        r matches Some(p) ==> spec_parse_reparse_data(buf@) == Some(p@),
{
    let n = buf.len();
    if n < 8 {
        return None;
    }
    let tag = read_u32_le(buf, 0);
    if tag != SYMLINK_TAG {
        return Some(ReparsePoint::Other);
    }
    if n < SYMLINK_PATH_BASE {
        return None;
    }
    let subst_off = read_u16_le(buf, 8) as usize;
    let subst_count = (read_u16_le(buf, 10) / 2) as usize;
    let print_off = read_u16_le(buf, 12) as usize;
    let print_count = (read_u16_le(buf, 14) / 2) as usize;
    if n - SYMLINK_PATH_BASE < subst_off || (n - SYMLINK_PATH_BASE - subst_off) / 2 < subst_count {
        return None;
    }
    if n - SYMLINK_PATH_BASE < print_off || (n - SYMLINK_PATH_BASE - print_off) / 2 < print_count {
        return None;
    }
    let subst = read_wide(buf, SYMLINK_PATH_BASE + subst_off, subst_count);
    let print = read_wide(buf, SYMLINK_PATH_BASE + print_off, print_count);
    let flags = read_u32_le(buf, 16);
    if flags % 2 == 0 {
        Some(ReparsePoint::AbsoluteSymlink(subst, print))
    } else {
        Some(ReparsePoint::RelativeSymlink(subst, print))
    }
}

} // verus!
