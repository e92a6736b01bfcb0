//! The compressed unsigned integer of signature blobs and heap length prefixes.
use vstd::prelude::*;
use crate::error::Error;

verus! {

/// A compressed unsigned integer: one, two or four big-endian bytes whose
/// leading bits select the width.
#[derive(Debug, Clone, Copy, PartialEq, Eq, Structural)]
pub struct U(pub u32);

/// The largest value that the encoding can carry.
pub const U_MAX: u32 = 0x3FFF_FFFF;

/// The value read at `p` and the position after it.
pub open spec fn u_at(s: Seq<u8>, p: usize) -> Result<(U, usize), Error> {
    if p >= s.len() || s.len() > usize::MAX {
        Err(Error::BadInput)
    } else if s[p as int] < 0x80 {
        Ok((U(s[p as int] as u32), (p + 1) as usize))
    } else if s[p as int] < 0xC0 {
        if p + 2 > s.len() {
            Err(Error::BadInput)
        } else {
            Ok((U(((s[p as int] - 0x80) * 0x100 + s[p + 1]) as u32), (p + 2) as usize))
        }
    } else if p + 4 > s.len() {
        Err(Error::BadInput)
    } else {
        Ok((
            U(((s[p as int] - 0xC0) * 0x100_0000 + s[p + 1] * 0x1_0000 + s[p + 2] * 0x100 + s[p
                + 3]) as u32),
            (p + 4) as usize,
        ))
    }
}

/// The shortest encoding of `u`.
pub open spec fn encode_u(u: u32) -> Seq<u8> {
    if u <= 0x7F {
        seq![u as u8]
    } else if u <= 0x3FFF {
        seq![(0x80 + u / 0x100) as u8, (u % 0x100) as u8]
    } else {
        seq![
            (0xC0 + u / 0x100_0000) as u8,
            ((u / 0x1_0000) % 0x100) as u8,
            ((u / 0x100) % 0x100) as u8,
            (u % 0x100) as u8,
        ]
    }
}

/// The width in bytes of the shortest encoding of `u`.
pub open spec fn u_width(u: u32) -> usize {
    if u <= 0x7F {
        1
    } else if u <= 0x3FFF {
        2
    } else {
        4
    }
}

impl U {
    /// The number of bytes of the shortest encoding of this value.
    pub fn byte_size(self) -> (r: usize)
        requires
            self.0 <= U_MAX,
        ensures
            r == u_width(self.0),
            r == encode_u(self.0).len(),
    {
        if self.0 <= 0x7F {
            1
        } else if self.0 <= 0x3FFF {
            2
        } else {
            4
        }
    }

    /// Reads a compressed unsigned integer at `p`; returns it and the position
    /// after it.
    pub fn parse(s: &[u8], p: usize) -> (r: Result<(U, usize), Error>)
        ensures
            r == u_at(s@, p),
    {
        if p >= s.len() {
            return Err(Error::BadInput);
        }
        let b0 = s[p];
        if b0 < 0x80 {
            Ok((U(b0 as u32), p + 1))
        } else if b0 < 0xC0 {
            if s.len() - p < 2 {
                return Err(Error::BadInput);
            }
            let v: u32 = (b0 - 0x80) as u32 * 0x100 + s[p + 1] as u32;
            Ok((U(v), p + 2))
        } else {
            if s.len() - p < 4 {
                return Err(Error::BadInput);
            }
            let v: u32 = (b0 - 0xC0) as u32 * 0x100_0000 + s[p + 1] as u32 * 0x1_0000 + s[p
                + 2] as u32 * 0x100 + s[p + 3] as u32;
            Ok((U(v), p + 4))
        }
    }
}

/// Decoding the shortest encoding of any value up to `U_MAX` gives the value
/// back, and the encoding takes one byte up to 0x7F, two up to 0x3FFF and four
/// above.
pub proof fn lemma_compressed_round_trip(u: u32)
    requires
        u <= U_MAX,
    ensures
        u_at(encode_u(u), 0) == Ok::<(U, usize), Error>((U(u), encode_u(u).len() as usize)),
        encode_u(u).len() == u_width(u),
        (encode_u(u).len() == 1) == (u <= 0x7F),
        (encode_u(u).len() == 2) == (0x7F < u <= 0x3FFF),
        (encode_u(u).len() == 4) == (0x3FFF < u),
{
    let s = encode_u(u);
    if u <= 0x7F {
    } else if u <= 0x3FFF {
        assert(s[0] == 0x80 + u / 0x100);
        assert(s[1] == u % 0x100);
        assert((u / 0x100) * 0x100 + u % 0x100 == u);
    } else {
        let a = u / 0x100_0000;
        let b = (u / 0x1_0000) % 0x100;
        let c = (u / 0x100) % 0x100;
        let d = u % 0x100;
        assert(a < 0x40);
        assert(s[0] == 0xC0 + a);
        assert(s[1] == b);
        assert(s[2] == c);
        assert(s[3] == d);
        assert(a * 0x100_0000 + b * 0x1_0000 + c * 0x100 + d == u) by (nonlinear_arith)
            requires
                a == u / 0x100_0000,
                b == (u / 0x1_0000) % 0x100,
                c == (u / 0x100) % 0x100,
                d == u % 0x100,
                u <= 0x3FFF_FFFF,
        ;
    }
}

} // verus!
