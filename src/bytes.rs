//! Little-endian integers read at a byte position.
use vstd::prelude::*;

verus! {

/// The little-endian value of the two bytes at `p`.
pub open spec fn le16(s: Seq<u8>, p: int) -> int {
    s[p] + s[p + 1] * 0x100
}

/// The little-endian value of the four bytes at `p`.
pub open spec fn le32(s: Seq<u8>, p: int) -> int {
    le16(s, p) + le16(s, p + 2) * 0x1_0000
}

/// The little-endian value of the eight bytes at `p`.
pub open spec fn le64(s: Seq<u8>, p: int) -> int {
    le32(s, p) + le32(s, p + 4) * 0x1_0000_0000
}

/// The big-endian value of the two bytes at `p`.
pub open spec fn be16(s: Seq<u8>, p: int) -> int {
    s[p] * 0x100 + s[p + 1]
}

/// The big-endian value of the four bytes at `p`.
pub open spec fn be32(s: Seq<u8>, p: int) -> int {
    be16(s, p) * 0x1_0000 + be16(s, p + 2)
}

pub fn read_u8(s: &[u8], p: usize) -> (r: Option<u8>)
    ensures
        r == (if p < s@.len() { Some(s@[p as int]) } else { None::<u8> }),
{
    if p < s.len() {
        Some(s[p])
    } else {
        None
    }
}

pub fn read_u16(s: &[u8], p: usize) -> (r: Option<u16>)
    ensures
        r == (if p + 2 <= s@.len() { Some(le16(s@, p as int) as u16) } else { None::<u16> }),
        r is Some ==> r->0 == le16(s@, p as int),
{
    if p < s.len() && s.len() - p >= 2 {
        let v: u16 = s[p] as u16 + s[p + 1] as u16 * 0x100;
        Some(v)
    } else {
        None
    }
}

pub fn read_u32(s: &[u8], p: usize) -> (r: Option<u32>)
    ensures
        r == (if p + 4 <= s@.len() { Some(le32(s@, p as int) as u32) } else { None::<u32> }),
        r is Some ==> r->0 == le32(s@, p as int),
{
    if p < s.len() && s.len() - p >= 4 {
        let lo: u32 = s[p] as u32 + s[p + 1] as u32 * 0x100;
        let hi: u32 = s[p + 2] as u32 + s[p + 3] as u32 * 0x100;
        Some(lo + hi * 0x1_0000)
    } else {
        None
    }
}

pub fn read_u64(s: &[u8], p: usize) -> (r: Option<u64>)
    ensures
        r == (if p + 8 <= s@.len() { Some(le64(s@, p as int) as u64) } else { None::<u64> }),
        r is Some ==> r->0 == le64(s@, p as int),
{
    if p < s.len() && s.len() - p >= 8 {
        let lo = read_u32(s, p).unwrap();
        let hi = read_u32(s, p + 4).unwrap();
        Some(lo as u64 + hi as u64 * 0x1_0000_0000)
    } else {
        None
    }
}

} // verus!
