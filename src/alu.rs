use crate::width::{bit_of, UInt};
use crate::Flags;
use vstd::arithmetic::div_mod::{lemma_fundamental_div_mod_converse, lemma_mod_breakdown};
use vstd::arithmetic::power2::{lemma2_to64, lemma_pow2_pos, lemma_pow2_unfold, pow2};
use vstd::prelude::*;

verus! {

/// The five control lines of the ALU.
#[derive(Debug, Clone, Copy, Default, PartialEq, Eq, Structural)]
pub struct ALUSettings {
    pub invert_a: bool,
    pub invert_b: bool,
    pub flood_carry: bool,
    pub carry_in: bool,
    pub or_mode: bool,
}

/// What one pass through the ALU yields: the result and its three flags.
#[derive(Debug, Clone, Copy)]
pub struct AluOutput<T> {
    pub value: T,
    pub carry: bool,
    pub zero: bool,
    pub sign: bool,
}

/// An operand after the optional inversion against the all-ones word of `n` bits.
pub open spec fn operand(invert: bool, x: nat, n: nat) -> nat {
    if invert {
        (pow2(n) - 1 - x) as nat
    } else {
        x
    }
}

pub open spec fn majority(a: bool, b: bool, c: bool) -> bool {
    (a && b) || (a && c) || (b && c)
}

/// The result bit of one adder cell.
pub open spec fn sum_bit(s: ALUSettings, a: bool, b: bool, c: bool) -> bool {
    if s.or_mode {
        (a || b) != c
    } else {
        (a != b) != c
    }
}

/// The carry that one adder cell hands to the next.
pub open spec fn next_carry(s: ALUSettings, a: bool, b: bool, c: bool) -> bool {
    if s.flood_carry {
        true
    } else if s.or_mode {
        a && b && c
    } else {
        majority(a, b, c)
    }
}

/// The carry into bit position `i` of the ripple chain over `x` and `y`.
pub open spec fn carry_into(s: ALUSettings, x: nat, y: nat, i: nat) -> bool
    decreases i,
{
    if i == 0 {
        s.carry_in
    } else {
        let j = (i - 1) as nat;
        next_carry(s, bit_of(x, j), bit_of(y, j), carry_into(s, x, y, j))
    }
}

/// The low `i` result bits of the ripple chain over `x` and `y`.
pub open spec fn ripple_sum(s: ALUSettings, x: nat, y: nat, i: nat) -> nat
    decreases i,
{
    if i == 0 {
        0
    } else {
        let j = (i - 1) as nat;
        ripple_sum(s, x, y, j) + if sum_bit(s, bit_of(x, j), bit_of(y, j), carry_into(s, x, y, j)) {
            pow2(j)
        } else {
            0
        }
    }
}

pub proof fn lemma_ripple_sum_bound(s: ALUSettings, x: nat, y: nat, i: nat)
    ensures
        ripple_sum(s, x, y, i) < pow2(i),
    decreases i,
{
    if i == 0 {
        lemma2_to64();
    } else {
        let j = (i - 1) as nat;
        lemma_ripple_sum_bound(s, x, y, j);
        lemma_pow2_unfold(i);
    }
}

/// The low `i` bits of the bitwise OR of `x` and `y`.
pub open spec fn bitwise_or(x: nat, y: nat, i: nat) -> nat
    decreases i,
{
    if i == 0 {
        0
    } else {
        let j = (i - 1) as nat;
        bitwise_or(x, y, j) + if bit_of(x, j) || bit_of(y, j) {
            pow2(j)
        } else {
            0
        }
    }
}

/// In adding mode the ripple chain is a binary adder: the low `i` result bits
/// and the carry into bit `i` together make the sum of the low `i` bits of
/// both operands and the carry in.
pub proof fn lemma_ripple_adds(s: ALUSettings, x: nat, y: nat, i: nat)
    requires
        !s.or_mode,
        !s.flood_carry,
    ensures
        ripple_sum(s, x, y, i) + (if carry_into(s, x, y, i) { pow2(i) } else { 0 }) == x % pow2(i)
            + y % pow2(i) + (if s.carry_in { 1nat } else { 0nat }),
    decreases i,
{
    if i == 0 {
        lemma2_to64();
    } else {
        let j = (i - 1) as nat;
        lemma_ripple_adds(s, x, y, j);
        let p = pow2(j);
        lemma_pow2_unfold(i);
        lemma_pow2_pos(j);
        lemma_mod_breakdown(x as int, p as int, 2);
        lemma_mod_breakdown(y as int, p as int, 2);
        let xb = (x / p) % 2;
        let yb = (y / p) % 2;
        assert(xb == 0 || xb == 1);
        assert(yb == 0 || yb == 1);
        assert(p * xb == if xb == 1 { p } else { 0 }) by (nonlinear_arith)
            requires
                xb == 0 || xb == 1,
        ;
        assert(p * yb == if yb == 1 { p } else { 0 }) by (nonlinear_arith)
            requires
                yb == 0 || yb == 1,
        ;
        assert(p * 2 == pow2(i));
    }
}

/// In adding mode, on operands of `n` bits, the result is the sum modulo
/// 2^n and the carry out tells whether the sum reached 2^n.
pub proof fn lemma_ripple_sum_mod(s: ALUSettings, x: nat, y: nat, n: nat)
    requires
        !s.or_mode,
        !s.flood_carry,
        x < pow2(n),
        y < pow2(n),
    ensures
        ripple_sum(s, x, y, n) == (x + y + (if s.carry_in { 1int } else { 0int })) % (pow2(n) as int),
        carry_into(s, x, y, n) == (x + y + (if s.carry_in { 1int } else { 0int }) >= pow2(n)),
{
    let c: int = if s.carry_in { 1 } else { 0 };
    let p = pow2(n) as int;
    lemma_ripple_adds(s, x, y, n);
    lemma_ripple_sum_bound(s, x, y, n);
    lemma_pow2_pos(n);
    vstd::arithmetic::div_mod::lemma_small_mod(x, pow2(n));
    vstd::arithmetic::div_mod::lemma_small_mod(y, pow2(n));
    let r = ripple_sum(s, x, y, n) as int;
    if carry_into(s, x, y, n) {
        lemma_fundamental_div_mod_converse(x + y + c, p, 1, r);
    } else {
        lemma_fundamental_div_mod_converse(x + y + c, p, 0, r);
    }
}

impl ALUSettings {
    /// The `n`-bit result of the ALU on `a` and `b`.
    pub open spec fn result(self, a: nat, b: nat, n: nat) -> nat {
        ripple_sum(self, operand(self.invert_a, a, n), operand(self.invert_b, b, n), n)
    }

    /// The carry out of the top bit of the ALU on `a` and `b`.
    pub open spec fn carry_out(self, a: nat, b: nat, n: nat) -> bool {
        carry_into(self, operand(self.invert_a, a, n), operand(self.invert_b, b, n), n)
    }

    /// Whether the `n`-bit result on `a` and `b` is zero.
    pub open spec fn zero_flag(self, a: nat, b: nat, n: nat) -> bool {
        self.result(a, b, n) == 0
    }

    /// Whether the top bit of the `n`-bit result on `a` and `b` is set.
    pub open spec fn sign_flag(self, a: nat, b: nat, n: nat) -> bool {
        bit_of(self.result(a, b, n), (n - 1) as nat)
    }

    /// Runs the ripple chain over `a` and `b`, one adder cell per bit, and
    /// reports the result with its carry, zero and sign flags.
    pub fn combine<T: UInt>(&self, input_a: T, input_b: T) -> (r: AluOutput<T>)
        ensures
            r.value.value() == self.result(input_a.value(), input_b.value(), T::width()),
            r.carry == self.carry_out(input_a.value(), input_b.value(), T::width()),
            r.zero == self.zero_flag(input_a.value(), input_b.value(), T::width()),
            r.sign == self.sign_flag(input_a.value(), input_b.value(), T::width()),
    {
        proof {
            T::lemma_range(input_a);
            T::lemma_range(input_b);
        }
        let n = T::bit_count();
        let x = if self.invert_a {
            input_a.invert()
        } else {
            input_a
        };
        let y = if self.invert_b {
            input_b.invert()
        } else {
            input_b
        };
        let ghost xv = operand(self.invert_a, input_a.value(), T::width());
        let ghost yv = operand(self.invert_b, input_b.value(), T::width());
        let mut carry = self.carry_in;
        let mut sum = T::zero();
        let mut bit: u32 = 0;
        while bit < n
            invariant
                n as nat == T::width(),
                T::width() == 8 || T::width() == 16,
                bit <= n,
                x.value() == xv,
                y.value() == yv,
                carry == carry_into(*self, xv, yv, bit as nat),
                sum.value() == ripple_sum(*self, xv, yv, bit as nat),
            decreases n - bit,
        {
            let a_bit = x.test_bit(bit);
            let b_bit = y.test_bit(bit);
            let s = if self.or_mode {
                (a_bit || b_bit) != carry
            } else {
                (a_bit != b_bit) != carry
            };
            proof {
                lemma_ripple_sum_bound(*self, xv, yv, bit as nat);
            }
            if s {
                sum = sum.with_bit(bit);
            }
            carry = if self.flood_carry {
                true
            } else if self.or_mode {
                a_bit && b_bit && carry
            } else {
                (a_bit && b_bit) || (a_bit && carry) || (b_bit && carry)
            };
            bit = bit + 1;
        }
        let sign = sum.test_bit(n - 1);
        let zero = sum.is_zero();
        AluOutput { value: sum, carry, zero, sign }
    }

    /// Runs the ALU like `combine` and records carry, zero and sign in the
    /// flags of the operands' width.
    pub fn perform_operation<T: UInt>(&self, input_a: T, input_b: T, flags: Option<&mut Flags>) -> (r: T)
        ensures
            r.value() == self.result(input_a.value(), input_b.value(), T::width()),
            flags matches Some(f) ==> *final(f) == (*f).with_results(
                T::width() == 8,
                self.carry_out(input_a.value(), input_b.value(), T::width()),
                self.zero_flag(input_a.value(), input_b.value(), T::width()),
                self.sign_flag(input_a.value(), input_b.value(), T::width()),
            ),
    {
        let out = self.combine(input_a, input_b);
        let is_8bit = T::bit_count() == 8;
        if let Some(f) = flags {
            f.record(is_8bit, out.carry, out.zero, out.sign);
        }
        out.value
    }
}

/// The settings that bits 4..0 of `v` select: invert a, invert b, flood
/// carry, carry in and or mode, from bit 4 down.
pub open spec fn settings_of(v: u8) -> ALUSettings {
    ALUSettings {
        invert_a: v & 0b10000u8 != 0,
        invert_b: v & 0b01000u8 != 0,
        flood_carry: v & 0b00100u8 != 0,
        carry_in: v & 0b00010u8 != 0,
        or_mode: v & 0b00001u8 != 0,
    }
}

/// With every setting clear, adding zero leaves an operand unchanged, with no
/// carry out, the zero flag telling whether it is zero and the sign flag
/// copying its top bit.
pub proof fn lemma_additive_identity(s: ALUSettings, a: nat, n: nat)
    requires
        s == (ALUSettings {
            invert_a: false,
            invert_b: false,
            flood_carry: false,
            carry_in: false,
            or_mode: false,
        }),
        n > 0,
        a < pow2(n),
    ensures
        s.result(a, 0, n) == a,
        !s.carry_out(a, 0, n),
        s.zero_flag(a, 0, n) == (a == 0),
        s.sign_flag(a, 0, n) == bit_of(a, (n - 1) as nat),
{
    lemma_pow2_pos(n);
    lemma_ripple_sum_mod(s, a, 0, n);
    vstd::arithmetic::div_mod::lemma_small_mod(a, pow2(n));
}

/// With every setting clear, the ALU adds: the result is `a + b` modulo 2^n
/// and the carry out tells whether the sum reached 2^n.
pub proof fn lemma_addition(s: ALUSettings, a: nat, b: nat, n: nat)
    requires
        s == (ALUSettings {
            invert_a: false,
            invert_b: false,
            flood_carry: false,
            carry_in: false,
            or_mode: false,
        }),
        a < pow2(n),
        b < pow2(n),
    ensures
        s.result(a, b, n) == (a + b) as int % (pow2(n) as int),
        s.carry_out(a, b, n) == (a + b >= pow2(n)),
{
    lemma_ripple_sum_mod(s, a, b, n);
}

/// Inverting `b` with the carry in set subtracts: the result is `a - b`
/// modulo 2^n, and the carry out is set exactly when no borrow occurs.
pub proof fn lemma_subtraction(s: ALUSettings, a: nat, b: nat, n: nat)
    requires
        s == (ALUSettings {
            invert_a: false,
            invert_b: true,
            flood_carry: false,
            carry_in: true,
            or_mode: false,
        }),
        a < pow2(n),
        b < pow2(n),
    ensures
        s.result(a, b, n) == (a - b) % (pow2(n) as int),
        s.carry_out(a, b, n) == (a >= b),
{
    let p = pow2(n) as int;
    let y = operand(true, b, n);
    lemma_ripple_sum_mod(s, a, y, n);
    lemma_ripple_sum_bound(s, a, y, n);
    if a >= b {
        lemma_fundamental_div_mod_converse(a - b, p, 0, a - b);
        lemma_fundamental_div_mod_converse((a + y + 1) as int, p, 1, a - b);
    } else {
        lemma_fundamental_div_mod_converse(a - b, p, -1, a - b + p);
        lemma_fundamental_div_mod_converse((a + y + 1) as int, p, 0, a - b + p);
    }
}

/// With flood carry set, the carry out is set whatever the operands.
pub proof fn lemma_flood_carry(s: ALUSettings, a: nat, b: nat, n: nat)
    requires
        s.flood_carry,
        n > 0,
    ensures
        s.carry_out(a, b, n),
{
}

/// In or mode, with no carry in, no flood carry and no inversion, the result
/// is the bitwise OR of the operands and no carry ever arises.
pub proof fn lemma_or_mode(s: ALUSettings, a: nat, b: nat, n: nat)
    requires
        s.or_mode,
        !s.carry_in,
        !s.flood_carry,
        !s.invert_a,
        !s.invert_b,
    ensures
        s.result(a, b, n) == bitwise_or(a, b, n),
        !s.carry_out(a, b, n),
    decreases n,
{
    if n > 0 {
        lemma_or_mode(s, a, b, (n - 1) as nat);
    }
}

impl From<u8> for ALUSettings {
    /// Reads the settings from bits 4..0: invert a, invert b, flood carry,
    /// carry in and or mode, from bit 4 down. Higher bits are ignored.
    fn from(value: u8) -> (r: Self) {
        ALUSettings {
            invert_a: (value & 0b10000u8) != 0,
            invert_b: (value & 0b01000u8) != 0,
            flood_carry: (value & 0b00100u8) != 0,
            carry_in: (value & 0b00010u8) != 0,
            or_mode: (value & 0b00001u8) != 0,
        }
    }
}

impl vstd::std_specs::convert::FromSpecImpl<u8> for ALUSettings {
    open spec fn obeys_from_spec() -> bool {
        true
    }

    open spec fn from_spec(v: u8) -> Self {
        settings_of(v)
    }
}

} // verus!
