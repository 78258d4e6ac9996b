use vstd::prelude::*;

verus! {

/// A compressed point of the first source group (48 bytes).
#[derive(Clone, Copy, PartialEq, Eq, Debug)]
pub struct G1(pub [u8; 48]);

/// A compressed point of the second source group (96 bytes).
#[derive(Clone, Copy, PartialEq, Eq, Debug)]
pub struct G2(pub [u8; 96]);

/// Compressed encoding of the standard generator of the first group.
pub open spec fn g1_generator_bytes() -> Seq<u8> {
    seq![
        0x97, 0xf1, 0xd3, 0xa7, 0x31, 0x97, 0xd7, 0x94, 0x26, 0x95, 0x63, 0x8c,
        0x4f, 0xa9, 0xac, 0x0f, 0xc3, 0x68, 0x8c, 0x4f, 0x97, 0x74, 0xb9, 0x05,
        0xa1, 0x4e, 0x3a, 0x3f, 0x17, 0x1b, 0xac, 0x58, 0x6c, 0x55, 0xe8, 0x3f,
        0xf9, 0x7a, 0x1a, 0xef, 0xfb, 0x3a, 0xf0, 0x0a, 0xdb, 0x22, 0xc6, 0xbb,
    ]
}

/// Compressed encoding of the standard generator of the second group.
pub open spec fn g2_generator_bytes() -> Seq<u8> {
    seq![
        0x93, 0xe0, 0x2b, 0x60, 0x52, 0x71, 0x9f, 0x60, 0x7d, 0xac, 0xd3, 0xa0,
        0x88, 0x27, 0x4f, 0x65, 0x59, 0x6b, 0xd0, 0xd0, 0x99, 0x20, 0xb6, 0x1a,
        0xb5, 0xda, 0x61, 0xbb, 0xdc, 0x7f, 0x50, 0x49, 0x33, 0x4c, 0xf1, 0x12,
        0x13, 0x94, 0x5d, 0x57, 0xe5, 0xac, 0x7d, 0x05, 0x5d, 0x04, 0x2b, 0x7e,
        0x02, 0x4a, 0xa2, 0xb2, 0xf0, 0x8f, 0x0a, 0x91, 0x26, 0x08, 0x05, 0x27,
        0x2d, 0xc5, 0x10, 0x51, 0xc6, 0xe4, 0x7a, 0xd4, 0xfa, 0x40, 0x3b, 0x02,
        0xb4, 0x51, 0x0b, 0x64, 0x7a, 0xe3, 0xd1, 0x77, 0x0b, 0xac, 0x03, 0x26,
        0xa8, 0x05, 0xbb, 0xef, 0xd4, 0x80, 0x56, 0xc8, 0xc1, 0x21, 0xbd, 0xb8,
    ]
}

/// Whether `b` is the compressed encoding of the point at infinity:
/// the compression and infinity flags set, every other bit clear.
pub open spec fn is_infinity_bytes(b: Seq<u8>) -> bool {
    &&& b.len() > 0
    &&& b[0] == 0xc0u8
    &&& forall|i: int| 1 <= i < b.len() ==> b[i] == 0u8
}

impl G1 {
    pub open spec fn spec_is_generator(self) -> bool {
        self.0@ == g1_generator_bytes()
    }

    /// The standard generator of the first group.
    pub fn generator() -> (r: G1)
        ensures
            r.spec_is_generator(),
    {
        let r = G1([
            0x97, 0xf1, 0xd3, 0xa7, 0x31, 0x97, 0xd7, 0x94, 0x26, 0x95, 0x63, 0x8c,
            0x4f, 0xa9, 0xac, 0x0f, 0xc3, 0x68, 0x8c, 0x4f, 0x97, 0x74, 0xb9, 0x05,
            0xa1, 0x4e, 0x3a, 0x3f, 0x17, 0x1b, 0xac, 0x58, 0x6c, 0x55, 0xe8, 0x3f,
            0xf9, 0x7a, 0x1a, 0xef, 0xfb, 0x3a, 0xf0, 0x0a, 0xdb, 0x22, 0xc6, 0xbb,
        ]);
        assert(r.0@ =~= g1_generator_bytes());
        r
    }
}

impl G2 {
    pub open spec fn spec_is_generator(self) -> bool {
        self.0@ == g2_generator_bytes()
    }

    pub open spec fn spec_is_infinity(self) -> bool {
        is_infinity_bytes(self.0@)
    }

    /// The standard generator of the second group.
    pub fn generator() -> (r: G2)
        ensures
            r.spec_is_generator(),
    {
        let r = G2([
            0x93, 0xe0, 0x2b, 0x60, 0x52, 0x71, 0x9f, 0x60, 0x7d, 0xac, 0xd3, 0xa0,
            0x88, 0x27, 0x4f, 0x65, 0x59, 0x6b, 0xd0, 0xd0, 0x99, 0x20, 0xb6, 0x1a,
            0xb5, 0xda, 0x61, 0xbb, 0xdc, 0x7f, 0x50, 0x49, 0x33, 0x4c, 0xf1, 0x12,
            0x13, 0x94, 0x5d, 0x57, 0xe5, 0xac, 0x7d, 0x05, 0x5d, 0x04, 0x2b, 0x7e,
            0x02, 0x4a, 0xa2, 0xb2, 0xf0, 0x8f, 0x0a, 0x91, 0x26, 0x08, 0x05, 0x27,
            0x2d, 0xc5, 0x10, 0x51, 0xc6, 0xe4, 0x7a, 0xd4, 0xfa, 0x40, 0x3b, 0x02,
            0xb4, 0x51, 0x0b, 0x64, 0x7a, 0xe3, 0xd1, 0x77, 0x0b, 0xac, 0x03, 0x26,
            0xa8, 0x05, 0xbb, 0xef, 0xd4, 0x80, 0x56, 0xc8, 0xc1, 0x21, 0xbd, 0xb8,
        ]);
        assert(r.0@ =~= g2_generator_bytes());
        r
    }

    /// Whether this is the compressed encoding of the point at infinity.
    pub fn is_infinity(&self) -> (r: bool)
        ensures
            r == self.spec_is_infinity(),
    {
        if self.0[0] != 0xc0u8 {
            return false;
        }
        let mut i: usize = 1;
        while i < 96
            invariant
                1 <= i <= 96,
                self.0@.len() == 96,
                self.0@[0] == 0xc0u8,
                forall|j: int| 1 <= j < i ==> self.0@[j] == 0u8,
            decreases 96 - i,
        {
            if self.0[i] != 0u8 {
                return false;
            }
            i = i + 1;
        }
        true
    }
}

/// The generator of the second group is not the point at infinity.
pub proof fn lemma_generator_not_infinity(p: G2)
    requires
        p.spec_is_generator(),
    ensures
        !p.spec_is_infinity(),
{
    assert(p.0@[0] == 0x93u8);
}

/// Two encodings of the generator of the second group are the same point.
pub proof fn lemma_generator_unique(p: G2, q: G2)
    requires
        p.spec_is_generator(),
        q.spec_is_generator(),
    ensures
        p == q,
{
    assert(p.0@ =~= q.0@);
    assert(p.0 =~= q.0);
}

} // verus!
