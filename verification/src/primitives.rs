//! Fixed-width words of the EVM as plain values: 256-bit integers and the
//! 20- and 32-byte hashes, with the arithmetic the harness needs.

use vstd::prelude::*;

verus! {

/// One more than the largest value of a 256-bit word.
pub open spec fn u256_limit() -> nat {
    0x1_0000_0000_0000_0000_0000_0000_0000_0000_0000_0000_0000_0000_0000_0000_0000_0000_0000nat
}

/// The number that four 64-bit limbs stand for, least significant first.
pub open spec fn limbs_value(w0: u64, w1: u64, w2: u64, w3: u64) -> nat {
    (w0 as nat) + (w1 as nat) * 0x1_0000_0000_0000_0000nat + (w2 as nat)
        * 0x1_0000_0000_0000_0000_0000_0000_0000_0000nat + (w3 as nat)
        * 0x1_0000_0000_0000_0000_0000_0000_0000_0000_0000_0000_0000_0000nat
}

/// An unsigned 256-bit integer, held as four 64-bit limbs, least significant first.
#[derive(Clone, Copy, Debug, PartialEq, Eq)]
pub struct U256 {
    pub limbs: [u64; 4],
}

impl View for U256 {
    type V = nat;

    open spec fn view(&self) -> nat {
        limbs_value(self.limbs@[0], self.limbs@[1], self.limbs@[2], self.limbs@[3])
    }
}

impl U256 {
    /// The number zero.
    pub fn zero() -> (r: U256)
        ensures
            r@ == 0,
    {
        U256 { limbs: [0, 0, 0, 0] }
    }

    /// The number one.
    pub fn one() -> (r: U256)
        ensures
            r@ == 1,
    {
        U256 { limbs: [1, 0, 0, 0] }
    }

    /// The word that holds a 64-bit number.
    pub fn from_u64(x: u64) -> (r: U256)
        ensures
            r@ == x,
    {
        U256 { limbs: [x, 0, 0, 0] }
    }

    /// Whether the value is zero.
    pub fn is_zero(&self) -> (r: bool)
        ensures
            r == (self@ == 0),
    {
        self.limbs[0] == 0 && self.limbs[1] == 0 && self.limbs[2] == 0 && self.limbs[3] == 0
    }

    /// Whether the value can be held in 64 bits.
    pub fn fits_u64(&self) -> (r: bool)
        ensures
            r == (self@ <= u64::MAX),
    {
        self.limbs[1] == 0 && self.limbs[2] == 0 && self.limbs[3] == 0
    }

    /// The least significant 64 bits.
    pub fn low_u64(&self) -> (r: u64)
        ensures
            r == self@ % 0x1_0000_0000_0000_0000nat,
    {
        self.limbs[0]
    }

    /// Whether the value is below the other's.
    pub fn lt(&self, other: &U256) -> (r: bool)
        ensures
            r == (self@ < other@),
    {
        if self.limbs[3] != other.limbs[3] {
            self.limbs[3] < other.limbs[3]
        } else if self.limbs[2] != other.limbs[2] {
            self.limbs[2] < other.limbs[2]
        } else if self.limbs[1] != other.limbs[1] {
            self.limbs[1] < other.limbs[1]
        } else {
            self.limbs[0] < other.limbs[0]
        }
    }

    /// The product, unless it does not fit in 256 bits.
    pub fn checked_mul(self, other: U256) -> (r: Option<U256>)
        ensures
            match r {
                Some(p) => p@ == self@ * other@,
                None => self@ * other@ >= u256_limit(),
            },
    {
        word_checked_mul(self, other)
    }

    /// The difference, unless it would be negative.
    pub fn checked_sub(self, other: U256) -> (r: Option<U256>)
        ensures
            match r {
                Some(d) => d@ == self@ - other@,
                None => self@ < other@,
            },
    {
        word_checked_sub(self, other)
    }
}

/// `primitive_types::U256::checked_mul`: the exact product of the two
/// integers, or `None` when that product needs more than 256 bits.
#[verifier::external_body]
fn word_checked_mul(a: U256, b: U256) -> (r: Option<U256>)
    ensures
        match r {
            Some(p) => p@ == a@ * b@,
            None => a@ * b@ >= u256_limit(),
        },
{
    primitive_types::U256(a.limbs).checked_mul(primitive_types::U256(b.limbs)).map(
        |p| U256 { limbs: p.0 },
    )
}

/// `primitive_types::U256::checked_sub`: the exact difference of the two
/// integers, or `None` when the second is the larger.
#[verifier::external_body]
fn word_checked_sub(a: U256, b: U256) -> (r: Option<U256>)
    ensures
        match r {
            Some(d) => d@ == a@ - b@,
            None => a@ < b@,
        },
{
    primitive_types::U256(a.limbs).checked_sub(primitive_types::U256(b.limbs)).map(
        |d| U256 { limbs: d.0 },
    )
}

/// A 20-byte account address.
#[derive(Clone, Copy, Debug, PartialEq, Eq)]
pub struct H160 {
    pub bytes: [u8; 20],
}

impl View for H160 {
    type V = Seq<u8>;

    open spec fn view(&self) -> Seq<u8> {
        self.bytes@
    }
}

/// A 32-byte hash or storage word.
#[derive(Clone, Copy, Debug, PartialEq, Eq)]
pub struct H256 {
    pub bytes: [u8; 32],
}

impl View for H256 {
    type V = Seq<u8>;

    open spec fn view(&self) -> Seq<u8> {
        self.bytes@
    }
}

/// The byte of `x` that is `shift` bits above its lowest.
pub open spec fn byte_at(x: u64, shift: u64) -> u8 {
    ((x >> shift) & 0xff) as u8
}

/// The address whose last eight bytes are `x` in big-endian order and whose
/// first twelve are zero.
pub open spec fn low_u64_be(x: u64) -> Seq<u8> {
    seq![
        0u8, 0u8, 0u8, 0u8, 0u8, 0u8, 0u8, 0u8, 0u8, 0u8, 0u8, 0u8,
        byte_at(x, 56), byte_at(x, 48), byte_at(x, 40), byte_at(x, 32),
        byte_at(x, 24), byte_at(x, 16), byte_at(x, 8), byte_at(x, 0),
    ]
}

impl H160 {
    /// The address made of the big-endian bytes of `x`, zero-extended on the left.
    pub fn from_low_u64_be(x: u64) -> (r: H160)
        ensures
            r@ == low_u64_be(x),
    {
        let b7: u64 = (x >> 56) & 0xff;
        let b6: u64 = (x >> 48) & 0xff;
        let b5: u64 = (x >> 40) & 0xff;
        let b4: u64 = (x >> 32) & 0xff;
        let b3: u64 = (x >> 24) & 0xff;
        let b2: u64 = (x >> 16) & 0xff;
        let b1: u64 = (x >> 8) & 0xff;
        let b0: u64 = (x >> 0) & 0xff;
        assert(b7 <= 0xff && b6 <= 0xff && b5 <= 0xff && b4 <= 0xff) by (bit_vector)
            requires
                b7 == (x >> 56) & 0xff,
                b6 == (x >> 48) & 0xff,
                b5 == (x >> 40) & 0xff,
                b4 == (x >> 32) & 0xff,
        ;
        assert(b3 <= 0xff && b2 <= 0xff && b1 <= 0xff && b0 <= 0xff) by (bit_vector)
            requires
                b3 == (x >> 24) & 0xff,
                b2 == (x >> 16) & 0xff,
                b1 == (x >> 8) & 0xff,
                b0 == (x >> 0) & 0xff,
        ;
        let r = H160 {
            bytes: [
                0,
                0,
                0,
                0,
                0,
                0,
                0,
                0,
                0,
                0,
                0,
                0,
                b7 as u8,
                b6 as u8,
                b5 as u8,
                b4 as u8,
                b3 as u8,
                b2 as u8,
                b1 as u8,
                b0 as u8,
            ],
        };
        assert(r.bytes@ =~= low_u64_be(x));
        r
    }

    /// Whether the two addresses have the same bytes.
    pub fn same(&self, other: &H160) -> (r: bool)
        ensures
            r == (self@ == other@),
    {
        let mut i: usize = 0;
        while i < 20
            invariant
                i <= 20,
                forall|j: int| 0 <= j < i ==> self.bytes@[j] == other.bytes@[j],
            decreases 20 - i,
        {
            if self.bytes[i] != other.bytes[i] {
                return false;
            }
            i += 1;
        }
        assert(self.bytes@ =~= other.bytes@);
        true
    }
}

impl H256 {
    /// Whether the two words have the same bytes.
    pub fn same(&self, other: &H256) -> (r: bool)
        ensures
            r == (self@ == other@),
    {
        let mut i: usize = 0;
        while i < 32
            invariant
                i <= 32,
                forall|j: int| 0 <= j < i ==> self.bytes@[j] == other.bytes@[j],
            decreases 32 - i,
        {
            if self.bytes[i] != other.bytes[i] {
                return false;
            }
            i += 1;
        }
        assert(self.bytes@ =~= other.bytes@);
        true
    }

    /// Whether this is the zero word.
    pub fn is_zero(&self) -> (r: bool)
        ensures
            r == is_zero_word(self@),
    {
        let mut i: usize = 0;
        while i < 32
            invariant
                i <= 32,
                forall|j: int| 0 <= j < i ==> self.bytes@[j] == 0,
            decreases 32 - i,
        {
            if self.bytes[i] != 0 {
                return false;
            }
            i += 1;
        }
        true
    }
}

/// Whether every byte of a word is zero.
pub open spec fn is_zero_word(word: Seq<u8>) -> bool {
    forall|i: int| 0 <= i < word.len() ==> word[i] == 0
}

} // verus!
