use vstd::prelude::*;
use vstd::arithmetic::div_mod::{lemma_mod_add_multiples_vanish, lemma_small_mod};
use crate::backend::{Builder, IntValue};
use crate::state::{fits, signed, wrap, MachineState};
use crate::types::{mask, modulus, ComparisonType, Flag, IntType};

verus! {

/// True where the low byte of `x` has an even number of set bits.
pub open spec fn parity_even(x: u64) -> bool {
    ((x ^ (x >> 1u64) ^ (x >> 2u64) ^ (x >> 3u64) ^ (x >> 4u64) ^ (x >> 5u64) ^ (x >> 6u64) ^ (x
        >> 7u64)) & 1) == 0
}

/// True where the value of width `ty` has its sign bit set.
pub open spec fn negative(ty: IntType, x: u64) -> bool {
    (x as nat) >= modulus(ty) / 2
}

/// Bit 4 of `a ^ b ^ r`: the carry or borrow out of the low nibble of `a op b = r`.
pub open spec fn aux_carry(a: u64, b: u64, r: u64) -> bool {
    ((a ^ b ^ r) >> 4u64) & 1 == 1
}

/// The widths of the operands of x86 arithmetic.
pub open spec fn alu_width(ty: IntType) -> bool {
    ty == IntType::I8 || ty == IntType::I16 || ty == IntType::I32
}

/// ZF, SF and PF as set from a result `r` of width `ty`.
pub open spec fn with_result_flags(s: MachineState, ty: IntType, r: u64) -> MachineState {
    s.with_flag(Flag::Zero, r == 0).with_flag(Flag::Sign, negative(ty, r)).with_flag(
        Flag::Parity,
        parity_even(r),
    )
}

/// All six arithmetic flags after `a + b` at width `ty`.
pub open spec fn with_add_flags(s: MachineState, ty: IntType, a: u64, b: u64) -> MachineState {
    let r = wrap(ty, a + b);
    with_result_flags(s, ty, r).with_flag(Flag::Carry, a + b >= modulus(ty)).with_flag(
        Flag::Overflow,
        signed(ty, a) + signed(ty, b) != signed(ty, r),
    ).with_flag(Flag::AuxiliaryCarry, aux_carry(a, b, r))
}

/// All six arithmetic flags after `a - b` at width `ty`.
pub open spec fn with_sub_flags(s: MachineState, ty: IntType, a: u64, b: u64) -> MachineState {
    let r = wrap(ty, a - b);
    with_result_flags(s, ty, r).with_flag(Flag::Carry, a < b).with_flag(
        Flag::Overflow,
        signed(ty, a) - signed(ty, b) != signed(ty, r),
    ).with_flag(Flag::AuxiliaryCarry, aux_carry(a, b, r))
}

/// The flags after a logic operation with result `r`: CF, OF and AF clear.
pub open spec fn with_logic_flags(s: MachineState, ty: IntType, r: u64) -> MachineState {
    with_result_flags(s, ty, r).with_flag(Flag::Carry, false).with_flag(Flag::Overflow, false).with_flag(
        Flag::AuxiliaryCarry,
        false,
    )
}

pub proof fn lemma_wrap_add(ty: IntType, a: u64, b: u64)
    requires
        fits(ty, a),
        fits(ty, b),
    ensures
        wrap(ty, a + b) as int == if a + b < modulus(ty) {
            a + b
        } else {
            a + b - modulus(ty)
        },
{
    let m = modulus(ty) as int;
    if a + b < m {
        lemma_small_mod((a + b) as nat, m as nat);
    } else {
        lemma_mod_add_multiples_vanish(a + b - m, m);
        lemma_small_mod((a + b - m) as nat, m as nat);
    }
}

pub proof fn lemma_wrap_sub(ty: IntType, a: u64, b: u64)
    requires
        fits(ty, a),
        fits(ty, b),
    ensures
        wrap(ty, a - b) as int == if a >= b {
            a - b
        } else {
            a - b + modulus(ty)
        },
{
    let m = modulus(ty) as int;
    if a >= b {
        lemma_small_mod((a - b) as nat, m as nat);
    } else {
        lemma_mod_add_multiples_vanish(a - b, m);
        lemma_small_mod((a - b + m) as nat, m as nat);
    }
}

/// Small constants are values of every width used for arithmetic.
pub proof fn lemma_small_constants(ty: IntType)
    requires
        alu_width(ty),
    ensures
        0u64 & mask(ty) == 0,
        1u64 & mask(ty) == 1,
        2u64 & mask(ty) == 2,
        4u64 & mask(ty) == 4,
        7u64 & mask(ty) == 7,
        8u64 & mask(ty) == 8,
{
    let m = mask(ty);
    assert(0u64 & m == 0 && 1u64 & m == 1 && 2u64 & m == 2 && 4u64 & m == 4 && 7u64 & m == 7
        && 8u64 & m == 8) by (bit_vector)
        requires
            m == 0xff || m == 0xffff || m == 0xffff_ffff,
    ;
}

proof fn lemma_parity_steps(r: u64)
    ensures
        ({
            let l = r & 0xff;
            let x1 = l ^ (l >> 4u64);
            let x2 = x1 ^ (x1 >> 2u64);
            let x3 = x2 ^ (x2 >> 1u64);
            ((x3 & 1) == 0) == parity_even(r)
        }),
{
    assert(({
        let l = r & 0xff;
        let x1 = l ^ (l >> 4u64);
        let x2 = x1 ^ (x1 >> 2u64);
        let x3 = x2 ^ (x2 >> 1u64);
        ((x3 & 1) == 0) == (((r ^ (r >> 1u64) ^ (r >> 2u64) ^ (r >> 3u64) ^ (r >> 4u64) ^ (r
            >> 5u64) ^ (r >> 6u64) ^ (r >> 7u64)) & 1) == 0)
    })) by (bit_vector);
}

/// Emits `ZF`, `SF` and `PF` from the result `r`.
pub fn store_result_flags<B: Builder>(b: &mut B, r: B::IntValue)
    requires
        old(b).state().well_formed(),
        alu_width(r.width()),
        fits(r.width(), r.bits()),
    ensures
        final(b).state() == with_result_flags(old(b).state(), r.width(), r.bits()),
{
    let ty = r.size();
    let zero = b.make_int_value(ty, 0, false);
    proof {
        lemma_small_constants(ty);
    }
    let zf = b.icmp(ComparisonType::Equal, r, zero);
    b.store_flag(Flag::Zero, zf);
    let sf = b.icmp(ComparisonType::SignedLess, r, zero);
    b.store_flag(Flag::Sign, sf);
    let low = b.trunc(r, IntType::I8);
    let four = b.make_u8(4);
    let two = b.make_u8(2);
    let one = b.make_u8(1);
    let zero8 = b.make_u8(0);
    let s4 = b.lshr(low, four);
    let x1 = b.xor(low, s4);
    let s2 = b.lshr(x1, two);
    let x2 = b.xor(x1, s2);
    let s1 = b.lshr(x2, one);
    let x3 = b.xor(x2, s1);
    let bit = b.and(x3, one);
    let pf = b.icmp(ComparisonType::Equal, bit, zero8);
    proof {
        lemma_parity_steps(r.bits());
    }
    b.store_flag(Flag::Parity, pf);
}

/// Emits `AF` for the operation `a op b = r`.
pub fn store_aux_carry<B: Builder>(b: &mut B, x: B::IntValue, y: B::IntValue, r: B::IntValue)
    requires
        old(b).state().well_formed(),
        alu_width(x.width()),
        y.width() == x.width(),
        r.width() == x.width(),
    ensures
        final(b).state() == old(b).state().with_flag(
            Flag::AuxiliaryCarry,
            aux_carry(x.bits(), y.bits(), r.bits()),
        ),
{
    let ty = x.size();
    let t = b.xor(x, y);
    let t = b.xor(t, r);
    let four = b.make_int_value(ty, 4, false);
    let one = b.make_int_value(ty, 1, false);
    proof {
        lemma_small_constants(ty);
    }
    let sh = b.lshr(t, four);
    let bit = b.and(sh, one);
    let af = b.icmp(ComparisonType::Equal, bit, one);
    b.store_flag(Flag::AuxiliaryCarry, af);
}

/// Emits all six arithmetic flags of `x + y = r`.
pub fn store_add_flags<B: Builder>(b: &mut B, x: B::IntValue, y: B::IntValue, r: B::IntValue)
    requires
        old(b).state().well_formed(),
        alu_width(x.width()),
        y.width() == x.width(),
        r.width() == x.width(),
        fits(x.width(), x.bits()),
        fits(x.width(), y.bits()),
        r.bits() == wrap(x.width(), x.bits() + y.bits()),
    ensures
        final(b).state() == with_add_flags(old(b).state(), x.width(), x.bits(), y.bits()),
{
    let ty = x.size();
    proof {
        lemma_wrap_add(ty, x.bits(), y.bits());
    }
    store_result_flags(b, r);
    let cf = b.icmp(ComparisonType::UnsignedLess, r, x);
    b.store_flag(Flag::Carry, cf);
    let zero = b.make_int_value(ty, 0, false);
    proof {
        lemma_small_constants(ty);
    }
    let xn = b.icmp(ComparisonType::SignedLess, x, zero);
    let yn = b.icmp(ComparisonType::SignedLess, y, zero);
    let rn = b.icmp(ComparisonType::SignedLess, r, zero);
    // Overflow: both operands have one sign and the result the other.
    let nyn = b.bool_neg(yn);
    let nrn = b.bool_neg(rn);
    let both_neg = b.bool_and(xn, yn);
    let both_neg = b.bool_and(both_neg, nrn);
    let nxn = b.bool_neg(xn);
    let both_pos = b.bool_and(nxn, nyn);
    let both_pos = b.bool_and(both_pos, rn);
    let of = b.bool_or(both_neg, both_pos);
    b.store_flag(Flag::Overflow, of);
    store_aux_carry(b, x, y, r);
}

/// Emits all six arithmetic flags of `x - y = r`.
pub fn store_sub_flags<B: Builder>(b: &mut B, x: B::IntValue, y: B::IntValue, r: B::IntValue)
    requires
        old(b).state().well_formed(),
        alu_width(x.width()),
        y.width() == x.width(),
        r.width() == x.width(),
        fits(x.width(), x.bits()),
        fits(x.width(), y.bits()),
        r.bits() == wrap(x.width(), x.bits() - y.bits()),
    ensures
        final(b).state() == with_sub_flags(old(b).state(), x.width(), x.bits(), y.bits()),
{
    let ty = x.size();
    proof {
        lemma_wrap_sub(ty, x.bits(), y.bits());
    }
    store_result_flags(b, r);
    let cf = b.icmp(ComparisonType::UnsignedLess, x, y);
    b.store_flag(Flag::Carry, cf);
    let zero = b.make_int_value(ty, 0, false);
    proof {
        lemma_small_constants(ty);
    }
    let xn = b.icmp(ComparisonType::SignedLess, x, zero);
    let yn = b.icmp(ComparisonType::SignedLess, y, zero);
    let rn = b.icmp(ComparisonType::SignedLess, r, zero);
    // Overflow: the operands have different signs and the result has the sign of `y`.
    let nxn = b.bool_neg(xn);
    let nyn = b.bool_neg(yn);
    let nrn = b.bool_neg(rn);
    let neg_pos = b.bool_and(xn, nyn);
    let neg_pos = b.bool_and(neg_pos, nrn);
    let pos_neg = b.bool_and(nxn, yn);
    let pos_neg = b.bool_and(pos_neg, rn);
    let of = b.bool_or(neg_pos, pos_neg);
    b.store_flag(Flag::Overflow, of);
    store_aux_carry(b, x, y, r);
}

/// Emits the flags of a logic operation with result `r`.
pub fn store_logic_flags<B: Builder>(b: &mut B, r: B::IntValue)
    requires
        old(b).state().well_formed(),
        alu_width(r.width()),
        fits(r.width(), r.bits()),
    ensures
        final(b).state() == with_logic_flags(old(b).state(), r.width(), r.bits()),
{
    store_result_flags(b, r);
    let f = b.make_false();
    b.store_flag(Flag::Carry, f);
    b.store_flag(Flag::Overflow, f);
    b.store_flag(Flag::AuxiliaryCarry, f);
}

} // verus!
