//! Compressed BLS12-381 group elements, carried as bytes.
use vstd::prelude::*;

verus! {

/// A compressed point of G1.
#[derive(Clone, Copy, Debug, PartialEq, Eq)]
pub struct G1(pub [u8; 48]);

/// A compressed point of G2.
#[derive(Clone, Copy, Debug, PartialEq, Eq)]
pub struct G2(pub [u8; 96]);

/// The compressed encoding of the standard generator of G2.
pub open spec fn g2_generator_bytes() -> Seq<u8> {
    seq![
            0x93, 0xe0, 0x2b, 0x60, 0x52, 0x71, 0x9f, 0x60, 0x7d, 0xac, 0xd3, 0xa0,
            0x88, 0x27, 0x4f, 0x65, 0x59, 0x6b, 0xd0, 0xd0, 0x99, 0x20, 0xb6, 0x1a,
            0xb5, 0xda, 0x61, 0xbb, 0xdc, 0x7f, 0x50, 0x49, 0x33, 0x4c, 0xf1, 0x12,
            0x13, 0x94, 0x5d, 0x57, 0xe5, 0xac, 0x7d, 0x05, 0x5d, 0x04, 0x2b, 0x7e,
            0x02, 0x4a, 0xa2, 0xb2, 0xc0, 0x8f, 0x0a, 0x91, 0x26, 0x08, 0x05, 0x27,
            0x2d, 0xc5, 0x10, 0x51, 0xc6, 0xe4, 0x7a, 0xd4, 0xfa, 0x40, 0x3b, 0x02,
            0xb4, 0x51, 0x0b, 0x64, 0x7a, 0xe3, 0xd1, 0x77, 0x0b, 0xac, 0x03, 0x26,
            0xa8, 0x05, 0xbb, 0xef, 0xd4, 0x80, 0x56, 0xc8, 0xc1, 0x21, 0xbd, 0xb8,
    ]
}

/// The generator of G2: the canonical identity accumulator holds two of it.
pub open spec fn g2_one() -> G2 {
    choose|g: G2| g.0@ == g2_generator_bytes()
}

impl G2 {
    /// The generator of G2.
    pub fn one() -> (r: G2)
        ensures
            r == g2_one(),
    {
        let r = G2([
            0x93, 0xe0, 0x2b, 0x60, 0x52, 0x71, 0x9f, 0x60, 0x7d, 0xac, 0xd3, 0xa0,
            0x88, 0x27, 0x4f, 0x65, 0x59, 0x6b, 0xd0, 0xd0, 0x99, 0x20, 0xb6, 0x1a,
            0xb5, 0xda, 0x61, 0xbb, 0xdc, 0x7f, 0x50, 0x49, 0x33, 0x4c, 0xf1, 0x12,
            0x13, 0x94, 0x5d, 0x57, 0xe5, 0xac, 0x7d, 0x05, 0x5d, 0x04, 0x2b, 0x7e,
            0x02, 0x4a, 0xa2, 0xb2, 0xc0, 0x8f, 0x0a, 0x91, 0x26, 0x08, 0x05, 0x27,
            0x2d, 0xc5, 0x10, 0x51, 0xc6, 0xe4, 0x7a, 0xd4, 0xfa, 0x40, 0x3b, 0x02,
            0xb4, 0x51, 0x0b, 0x64, 0x7a, 0xe3, 0xd1, 0x77, 0x0b, 0xac, 0x03, 0x26,
            0xa8, 0x05, 0xbb, 0xef, 0xd4, 0x80, 0x56, 0xc8, 0xc1, 0x21, 0xbd, 0xb8,
        ]);
        assert(r.0@ =~= g2_generator_bytes());
        let ghost g = g2_one();
        assert(g.0@ == g2_generator_bytes());
        assert(g.0 =~= r.0);
        r
    }
}

/// Whether two G1 points have the same encoding.
pub fn g1_eq(a: &G1, b: &G1) -> (r: bool)
    ensures
        r == (*a == *b),
{
    let mut i: usize = 0;
    while i < 48
        invariant
            i <= 48,
            forall|j: int| 0 <= j < i ==> a.0[j] == b.0[j],
        decreases 48 - i,
    {
        if a.0[i] != b.0[i] {
            return false;
        }
        i = i + 1;
    }
    assert(a.0 =~= b.0);
    true
}

/// Whether two G2 points have the same encoding.
pub fn g2_eq(a: &G2, b: &G2) -> (r: bool)
    ensures
        r == (*a == *b),
{
    let mut i: usize = 0;
    while i < 96
        invariant
            i <= 96,
            forall|j: int| 0 <= j < i ==> a.0[j] == b.0[j],
        decreases 96 - i,
    {
        if a.0[i] != b.0[i] {
            return false;
        }
        i = i + 1;
    }
    assert(a.0 =~= b.0);
    true
}

} // verus!
