use vstd::arithmetic::power2::{lemma2_to64, pow2};
use vstd::bits::{
    lemma_u16_pow2_no_overflow, lemma_u16_shl_is_mul, lemma_u16_shr_is_div,
    lemma_u8_pow2_no_overflow, lemma_u8_shl_is_mul, lemma_u8_shr_is_div,
};
use vstd::prelude::*;

verus! {

/// Bit `i` of `x`, counting from the least significant bit.
pub open spec fn bit_of(x: nat, i: nat) -> bool {
    (x / pow2(i)) % 2 == 1
}

/// An unsigned machine word of 8 or 16 bits, as the ALU needs it: a zero, a
/// bit count, and access to single bits.
pub trait UInt: Sized + Copy {
    /// The number of bits in the word.
    spec fn width() -> nat;

    /// The word as a natural number.
    spec fn value(&self) -> nat;

    proof fn lemma_range(x: Self)
        ensures
            Self::width() == 8 || Self::width() == 16,
            x.value() < pow2(Self::width()),
    ;

    fn zero() -> (r: Self)
        ensures
            r.value() == 0,
    ;

    fn bit_count() -> (r: u32)
        ensures
            r as nat == Self::width(),
    ;

    fn is_zero(&self) -> (r: bool)
        ensures
            r == (self.value() == 0),
    ;

    /// The word XOR all ones.
    fn invert(&self) -> (r: Self)
        ensures
            r.value() == pow2(Self::width()) - 1 - self.value(),
    ;

    fn test_bit(&self, i: u32) -> (r: bool)
        requires
            i < Self::width(),
        ensures
            r == bit_of(self.value(), i as nat),
    ;

    /// Sets bit `i` of a word whose bits from `i` up are all clear.
    fn with_bit(&self, i: u32) -> (r: Self)
        requires
            i < Self::width(),
            self.value() < pow2(i as nat),
        ensures
            r.value() == self.value() + pow2(i as nat),
    ;
}

impl UInt for u8 {
    open spec fn width() -> nat {
        8
    }

    open spec fn value(&self) -> nat {
        *self as nat
    }

    proof fn lemma_range(x: Self) {
        lemma2_to64();
    }

    fn zero() -> (r: Self) {
        0
    }

    fn bit_count() -> (r: u32) {
        8
    }

    fn is_zero(&self) -> (r: bool) {
        *self == 0
    }

    fn invert(&self) -> (r: Self) {
        let x = *self;
        proof {
            lemma2_to64();
            assert(x ^ 0xFFu8 == 0xFFu8 - x) by (bit_vector);
        }
        x ^ 0xFFu8
    }

    fn test_bit(&self, i: u32) -> (r: bool) {
        let x = *self;
        let s = i as u8;
        proof {
            lemma_u8_shr_is_div(x, s);
            let y = x >> s;
            assert(y & 1u8 == y % 2) by (bit_vector);
        }
        (x >> s) & 1u8 == 1u8
    }

    fn with_bit(&self, i: u32) -> (r: Self) {
        let x = *self;
        let s = i as u8;
        proof {
            lemma_u8_pow2_no_overflow(s as nat);
            lemma_u8_shl_is_mul(1u8, s);
            assert(s < 8 && x < (1u8 << s) ==> x | (1u8 << s) == x + (1u8 << s)) by (bit_vector);
        }
        x | (1u8 << s)
    }
}

impl UInt for u16 {
    open spec fn width() -> nat {
        16
    }

    open spec fn value(&self) -> nat {
        *self as nat
    }

    proof fn lemma_range(x: Self) {
        lemma2_to64();
    }

    fn zero() -> (r: Self) {
        0
    }

    fn bit_count() -> (r: u32) {
        16
    }

    fn is_zero(&self) -> (r: bool) {
        *self == 0
    }

    fn invert(&self) -> (r: Self) {
        let x = *self;
        proof {
            lemma2_to64();
            assert(x ^ 0xFFFFu16 == 0xFFFFu16 - x) by (bit_vector);
        }
        x ^ 0xFFFFu16
    }

    fn test_bit(&self, i: u32) -> (r: bool) {
        let x = *self;
        let s = i as u16;
        proof {
            lemma_u16_shr_is_div(x, s);
            let y = x >> s;
            assert(y & 1u16 == y % 2) by (bit_vector);
        }
        (x >> s) & 1u16 == 1u16
    }

    fn with_bit(&self, i: u32) -> (r: Self) {
        let x = *self;
        let s = i as u16;
        proof {
            lemma_u16_pow2_no_overflow(s as nat);
            lemma_u16_shl_is_mul(1u16, s);
            assert(s < 16 && x < (1u16 << s) ==> x | (1u16 << s) == x + (1u16 << s))
                by (bit_vector);
        }
        x | (1u16 << s)
    }
}

} // verus!
