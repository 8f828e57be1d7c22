use vstd::prelude::*;
use vstd::arithmetic::div_mod::{
    lemma_mod_add_multiples_vanish,
    lemma_mod_mod,
    lemma_mul_mod_noop,
    lemma_small_mod,
};
use crate::backend::{
    sign_fill,
    effective_address,
    memory_operand_ok,
    operand_ok,
    operand_value,
    store_operand_spec,
    BoolValue,
    Builder,
    IntValue,
};
use crate::flags::{
    alu_width,
    lemma_small_constants,
    negative,
    with_result_flags,
    store_add_flags,
    store_logic_flags,
    store_sub_flags,
    with_add_flags,
    with_logic_flags,
    with_sub_flags,
};
use crate::state::{
    fits,
    lemma_load_le_bound,
    lemma_sext_bits,
    pow256,
    signed,
    width_bytes,
    wrap,
    MachineState,
};
use crate::types::{mask, modulus, width_bits, ComparisonType, Flag, IntType, Operand, Register};

verus! {

/// Every value an operand reads as is a value of its width.
pub proof fn lemma_operand_fits(s: MachineState, op: Operand)
    requires
        s.well_formed(),
        operand_ok(op),
    ensures
        fits(op.width(), operand_value(s, op)),
{
    match op {
        Operand::Register(r) => {
            let full = s.regs[r.parent().slot() as int];
            assert((full & 0xffff) <= 0xffff && (full & 0xff) <= 0xff && ((full >> 8u32) & 0xff)
                <= 0xff) by (bit_vector);
        },
        Operand::Memory(m) => {
            let n = width_bytes(m.size->Some_0);
            lemma_load_le_bound(s.mem, effective_address(s, m), n);
            reveal_with_fuel(pow256, 9);
        },
        _ => {},
    }
}

/// A destination of an arithmetic instruction: a register or a sized memory operand of 8, 16
/// or 32 bits.
pub open spec fn dest_ok(op: Operand) -> bool {
    &&& operand_ok(op)
    &&& (op is Register || op is Memory)
    &&& alu_width(op.width())
}

pub open spec fn is_immediate(op: Operand) -> bool {
    op is Immediate8 || op is Immediate16 || op is Immediate32 || op is Immediate64
}

/// A source for a destination of width `ty`: an operand of that width, or a narrower
/// immediate, which is sign-extended.
pub open spec fn source_ok(op: Operand, ty: IntType) -> bool {
    &&& operand_ok(op)
    &&& (op.width() == ty || (is_immediate(op) && width_bits(op.width()) < width_bits(ty)))
}

/// The value a source reads as at width `ty`.
pub open spec fn source_value(s: MachineState, op: Operand, ty: IntType) -> u64 {
    if op.width() == ty {
        operand_value(s, op)
    } else {
        wrap(ty, signed(op.width(), operand_value(s, op)))
    }
}

/// Emits the read of a source at width `ty`.
pub fn load_source<B: Builder>(b: &mut B, op: Operand, ty: IntType) -> (r: B::IntValue)
    requires
        old(b).state().well_formed(),
        source_ok(op, ty),
        alu_width(ty),
    ensures
        final(b).state() == old(b).state(),
        r.width() == ty,
        r.bits() == source_value(old(b).state(), op, ty),
        fits(ty, r.bits()),
{
    proof {
        lemma_operand_fits(b.state(), op);
    }
    let v = b.load_operand(op);
    if v.size() == ty {
        v
    } else {
        let r = b.sext(v, ty);
        proof {
            crate::state::lemma_wrap_fits(ty, signed(op.width(), v.bits()));
        }
        r
    }
}

/// The arithmetic and logic instructions of two operands.
#[derive(Debug, Clone, Copy, PartialEq, Eq, Structural)]
pub enum AluOp {
    Add,
    Sub,
    Cmp,
    And,
    Or,
    Xor,
    Test,
}

/// What `op dst, src` does.
pub open spec fn alu_spec(s: MachineState, op: AluOp, dst: Operand, src: Operand) -> MachineState {
    let w = dst.width();
    let a = operand_value(s, dst);
    let v = source_value(s, src, w);
    match op {
        AluOp::Add => with_add_flags(store_operand_spec(s, dst, wrap(w, a + v)), w, a, v),
        AluOp::Sub => with_sub_flags(store_operand_spec(s, dst, wrap(w, a - v)), w, a, v),
        AluOp::Cmp => with_sub_flags(s, w, a, v),
        AluOp::And => with_logic_flags(store_operand_spec(s, dst, a & v), w, a & v),
        AluOp::Or => with_logic_flags(store_operand_spec(s, dst, a | v), w, a | v),
        AluOp::Xor => with_logic_flags(store_operand_spec(s, dst, a ^ v), w, a ^ v),
        AluOp::Test => with_logic_flags(s, w, a & v),
    }
}

/// Emits `op dst, src`.
pub fn lower_alu<B: Builder>(b: &mut B, op: AluOp, dst: Operand, src: Operand)
    requires
        old(b).state().well_formed(),
        dest_ok(dst),
        source_ok(src, dst.width()),
    ensures
        final(b).state() == alu_spec(old(b).state(), op, dst, src),
{
    let ghost s0 = b.state();
    proof {
        lemma_operand_fits(s0, dst);
    }
    let a = b.load_operand(dst);
    let ty = a.size();
    let v = load_source(b, src, ty);
    proof {
        crate::state::lemma_bitwise_fits(ty, a.bits(), v.bits());
    }
    match op {
        AluOp::Add => {
            let r = b.add(a, v);
            b.store_operand(dst, r);
            store_add_flags(b, a, v, r);
        },
        AluOp::Sub => {
            let r = b.sub(a, v);
            b.store_operand(dst, r);
            store_sub_flags(b, a, v, r);
        },
        AluOp::Cmp => {
            let r = b.sub(a, v);
            store_sub_flags(b, a, v, r);
        },
        AluOp::And => {
            let r = b.and(a, v);
            b.store_operand(dst, r);
            store_logic_flags(b, r);
        },
        AluOp::Or => {
            let r = b.or(a, v);
            b.store_operand(dst, r);
            store_logic_flags(b, r);
        },
        AluOp::Xor => {
            let r = b.xor(a, v);
            b.store_operand(dst, r);
            store_logic_flags(b, r);
        },
        AluOp::Test => {
            let r = b.and(a, v);
            store_logic_flags(b, r);
        },
    }
}

/// What `mov dst, src` does.
pub open spec fn mov_spec(s: MachineState, dst: Operand, src: Operand) -> MachineState {
    store_operand_spec(s, dst, source_value(s, src, dst.width()))
}

pub fn lower_mov<B: Builder>(b: &mut B, dst: Operand, src: Operand)
    requires
        old(b).state().well_formed(),
        dest_ok(dst),
        source_ok(src, dst.width()),
    ensures
        final(b).state() == mov_spec(old(b).state(), dst, src),
{
    let ty = dst.size();
    let v = load_source(b, src, ty);
    b.store_operand(dst, v);
}

/// What `lea dst, [m]` does: the effective address goes to a 32-bit register; memory is not
/// touched.
pub open spec fn lea_spec(s: MachineState, dst: Register, m: crate::types::MemoryOperand) -> MachineState {
    s.with_reg(dst, effective_address(s, m) as u64)
}

pub fn lower_lea<B: Builder>(b: &mut B, dst: Register, m: crate::types::MemoryOperand)
    requires
        old(b).state().well_formed(),
        dst.width() == IntType::I32,
        memory_operand_ok(m),
    ensures
        final(b).state() == lea_spec(old(b).state(), dst, m),
{
    let addr = b.compute_memory_operand_address(m);
    b.store_register(dst, addr);
}

/// `x` where `c` holds, `y` elsewhere.
pub fn select_bool<B: Builder>(b: &mut B, c: B::BoolValue, x: B::BoolValue, y: B::BoolValue) -> (r:
    B::BoolValue)
    ensures
        final(b).state() == old(b).state(),
        r.truth() == if c.truth() {
            x.truth()
        } else {
            y.truth()
        },
{
    let t = b.bool_and(c, x);
    let nc = b.bool_neg(c);
    let e = b.bool_and(nc, y);
    b.bool_or(t, e)
}

/// Sets `flag` back to `old_value` where `keep` holds.
pub fn keep_flag_where<B: Builder>(b: &mut B, keep: B::BoolValue, flag: Flag, old_value: B::BoolValue)
    requires
        old(b).state().well_formed(),
    ensures
        final(b).state() == old(b).state().with_flag(
            flag,
            if keep.truth() {
                old_value.truth()
            } else {
                old(b).state().flag(flag)
            },
        ),
{
    let cur = b.load_flag(flag);
    let v = select_bool(b, keep, old_value, cur);
    b.store_flag(flag, v);
}

/// The instructions of one operand that write it.
#[derive(Debug, Clone, Copy, PartialEq, Eq, Structural)]
pub enum UnaryOp {
    Inc,
    Dec,
    Neg,
    Not,
}

/// What `op dst` does. INC and DEC keep CF; NOT keeps every flag.
pub open spec fn unary_spec(s: MachineState, op: UnaryOp, dst: Operand) -> MachineState {
    let w = dst.width();
    let a = operand_value(s, dst);
    match op {
        UnaryOp::Inc => with_add_flags(store_operand_spec(s, dst, wrap(w, a + 1)), w, a, 1).with_flag(
            Flag::Carry,
            s.flag(Flag::Carry),
        ),
        UnaryOp::Dec => with_sub_flags(store_operand_spec(s, dst, wrap(w, a - 1)), w, a, 1).with_flag(
            Flag::Carry,
            s.flag(Flag::Carry),
        ),
        UnaryOp::Neg => with_sub_flags(store_operand_spec(s, dst, wrap(w, 0 - a)), w, 0, a),
        UnaryOp::Not => store_operand_spec(s, dst, a ^ mask(w)),
    }
}

pub fn lower_unary<B: Builder>(b: &mut B, op: UnaryOp, dst: Operand)
    requires
        old(b).state().well_formed(),
        dest_ok(dst),
    ensures
        final(b).state() == unary_spec(old(b).state(), op, dst),
{
    let ghost s0 = b.state();
    proof {
        lemma_operand_fits(s0, dst);
    }
    let a = b.load_operand(dst);
    let ty = a.size();
    proof {
        lemma_small_constants(ty);
    }
    match op {
        UnaryOp::Inc => {
            let cf = b.load_flag(Flag::Carry);
            let one = b.make_int_value(ty, 1, false);
            let r = b.add(a, one);
            b.store_operand(dst, r);
            store_add_flags(b, a, one, r);
            b.store_flag(Flag::Carry, cf);
        },
        UnaryOp::Dec => {
            let cf = b.load_flag(Flag::Carry);
            let one = b.make_int_value(ty, 1, false);
            let r = b.sub(a, one);
            b.store_operand(dst, r);
            store_sub_flags(b, a, one, r);
            b.store_flag(Flag::Carry, cf);
        },
        UnaryOp::Neg => {
            let zero = b.make_int_value(ty, 0, false);
            let r = b.int_neg(a);
            b.store_operand(dst, r);
            store_sub_flags(b, zero, a, r);
        },
        UnaryOp::Not => {
            let m = b.make_int_value(ty, ty.mask(), false);
            assert(mask(ty) & mask(ty) == mask(ty)) by (bit_vector);
            let r = b.xor(a, m);
            b.store_operand(dst, r);
        },
    }
}

/// Writing a register with the value it reads as leaves the state as it was.
pub proof fn lemma_with_reg_same(s: MachineState, r: Register)
    requires
        s.well_formed(),
    ensures
        s.with_reg(r, s.reg(r)) == s,
{
    let full = s.regs[r.parent().slot() as int];
    assert((full & 0xffff_0000) | (((full & 0xffff) as u64) as u32 & 0xffff) == full
        && (full & 0xffff_00ff) | ((((((full >> 8u32) & 0xff) as u64) as u32) & 0xff) << 8u32) == full
        && (full & 0xffff_ff00) | (((full & 0xff) as u64) as u32 & 0xff) == full
        && ((full as u64) as u32) == full) by (bit_vector);
    assert(s.with_reg(r, s.reg(r)).regs =~= s.regs);
}

/// The shifts.
#[derive(Debug, Clone, Copy, PartialEq, Eq, Structural)]
pub enum ShiftOp {
    Shl,
    Shr,
    Sar,
}

/// A shift of a register by an 8-bit immediate or by CL.
pub open spec fn shift_ok(dst: Operand, count: Operand) -> bool {
    &&& dst is Register
    &&& alu_width(dst.width())
    &&& (count is Immediate8 || count == Operand::Register(Register::CL))
}

/// The count of a shift: the count operand masked to 5 bits.
pub open spec fn shift_count(s: MachineState, count: Operand) -> u64 {
    operand_value(s, count) & 0x1f
}

/// The result of shifting `a` of width `ty` by `c`, between 1 and 31.
pub open spec fn shift_result(op: ShiftOp, ty: IntType, a: u64, c: u64) -> u64 {
    match op {
        ShiftOp::Shl => (a << c) & mask(ty),
        ShiftOp::Shr => a >> c,
        ShiftOp::Sar => (sign_fill(ty, a) >> c) & mask(ty),
    }
}

/// The last bit shifted out: bit `W - c` of `a` to the left, bit `c - 1` to the right
/// (of the sign extension of `a` for SAR).
pub open spec fn shift_carry(op: ShiftOp, ty: IntType, a: u64, c: u64) -> bool {
    let wb = width_bits(ty) as u64;
    match op {
        ShiftOp::Shl => c <= wb && (a >> ((wb - c) as u64)) & 1 == 1,
        ShiftOp::Shr => (a >> ((c - 1) as u64)) & 1 == 1,
        ShiftOp::Sar => (sign_fill(ty, a) >> ((c - 1) as u64)) & 1 == 1,
    }
}

/// OF of a shift by one.
pub open spec fn shift_overflow(op: ShiftOp, ty: IntType, a: u64, c: u64) -> bool {
    match op {
        ShiftOp::Shl => shift_carry(op, ty, a, c) != negative(ty, shift_result(op, ty, a, c)),
        ShiftOp::Shr => negative(ty, a),
        ShiftOp::Sar => false,
    }
}

/// What `op dst, count` does. A count of zero changes nothing; OF is written only by a count
/// of one; AF is kept.
pub open spec fn shift_spec(s: MachineState, op: ShiftOp, dst: Operand, count: Operand) -> MachineState {
    let w = dst.width();
    let a = operand_value(s, dst);
    let c = shift_count(s, count);
    if c == 0 {
        s
    } else {
        let r = shift_result(op, w, a, c);
        with_result_flags(store_operand_spec(s, dst, r), w, r).with_flag(
            Flag::Carry,
            shift_carry(op, w, a, c),
        ).with_flag(
            Flag::Overflow,
            if c == 1 {
                shift_overflow(op, w, a, c)
            } else {
                s.flag(Flag::Overflow)
            },
        )
    }
}

proof fn lemma_shift_bits(a: u64, c: u64, wb: u64, m: u64)
    requires
        (wb == 8 && m == 0xff) || (wb == 16 && m == 0xffff) || (wb == 32 && m == 0xffff_ffff),
        a <= m,
        1 <= c <= 31,
    ensures
        ((a << c) & 0xffff_ffff_ffff_ffff) & m == (a << c) & m,
        ((((a << c) & 0xffff_ffff_ffff_ffff) >> wb) & 1 == 1) == (c <= wb && (a >> ((wb - c) as u64))
            & 1 == 1),
        (a >> c) & m == a >> c,
        (((a << 1u64) & 0xffff_ffff_ffff_ffff) >> c) & 1 == (a >> ((c - 1) as u64)) & 1,
{
    assert(((a << c) & 0xffff_ffff_ffff_ffff) & m == (a << c) & m) by (bit_vector);
    assert(((((a << c) & 0xffff_ffff_ffff_ffff) >> wb) & 1 == 1) == (c <= wb && (a >> ((wb - c) as u64))
        & 1 == 1)) by (bit_vector)
        requires
            (wb == 8 && m == 0xff) || (wb == 16 && m == 0xffff) || (wb == 32 && m == 0xffff_ffff),
            a <= m,
            1 <= c <= 31,
    ;
    assert((a >> c) & m == a >> c) by (bit_vector)
        requires
            m == 0xff || m == 0xffff || m == 0xffff_ffff,
            a <= m,
    ;
    assert((((a << 1u64) & 0xffff_ffff_ffff_ffff) >> c) & 1 == (a >> ((c - 1) as u64)) & 1)
        by (bit_vector)
        requires
            a <= 0xffff_ffff,
            1 <= c <= 31,
    ;
}

proof fn lemma_sar_carry_bits(e: u64, c: u64)
    requires
        1 <= c <= 31,
    ensures
        (((e << 1u64) & 0xffff_ffff_ffff_ffff) >> c) & 1 == (e >> ((c - 1) as u64)) & 1,
{
    assert((((e << 1u64) & 0xffff_ffff_ffff_ffff) >> c) & 1 == (e >> ((c - 1) as u64)) & 1)
        by (bit_vector)
        requires
            1 <= c <= 31,
    ;
}

/// Emits the result, CF and OF of shifting `a` by `c8`, for counts between 1 and 31. The
/// shift is done at 64 bits, where no count reaches the width.
fn shift_values<B: Builder>(b: &mut B, op: ShiftOp, a: B::IntValue, c8: B::IntValue) -> (res: (
    B::IntValue,
    B::BoolValue,
    B::BoolValue,
))
    requires
        alu_width(a.width()),
        fits(a.width(), a.bits()),
        c8.width() == IntType::I8,
        c8.bits() <= 31,
    ensures
        final(b).state() == old(b).state(),
        res.0.width() == a.width(),
        fits(a.width(), res.0.bits()),
        c8.bits() >= 1 ==> res.0.bits() == shift_result(op, a.width(), a.bits(), c8.bits()),
        c8.bits() >= 1 ==> res.1.truth() == shift_carry(op, a.width(), a.bits(), c8.bits()),
        c8.bits() >= 1 ==> res.2.truth() == shift_overflow(op, a.width(), a.bits(), c8.bits()),
{
    let ghost c = c8.bits();
    let ty = a.size();
    let wb: u64 = ty.bit_width() as u64;
    proof {
        lemma_small_constants(ty);
    }
    let c64 = b.zext(c8, IntType::I64);
    let one64 = b.make_u64(1);
    let wa = b.zext(a, IntType::I64);
    let zero_w = b.make_int_value(ty, 0, false);
    match op {
        ShiftOp::Shl => {
            let wide = b.shl(wa, c64);
            let r = b.trunc(wide, ty);
            proof {
                crate::state::lemma_mask_fits(ty, wide.bits());
            }
            let wbv = b.make_u64(wb);
            let hi = b.lshr(wide, wbv);
            let bit = b.and(hi, one64);
            let cf = b.icmp(ComparisonType::Equal, bit, one64);
            let rn = b.icmp(ComparisonType::SignedLess, r, zero_w);
            let nrn = b.bool_neg(rn);
            let of = select_bool(b, cf, nrn, rn);
            proof {
                if c >= 1 {
                    lemma_shift_bits(a.bits(), c, wb, mask(ty));
                }
            }
            (r, cf, of)
        },
        ShiftOp::Shr => {
            let wide = b.lshr(wa, c64);
            let r = b.trunc(wide, ty);
            proof {
                crate::state::lemma_mask_fits(ty, wide.bits());
            }
            let t = b.shl(wa, one64);
            let u = b.lshr(t, c64);
            let bit = b.and(u, one64);
            let cf = b.icmp(ComparisonType::Equal, bit, one64);
            let of = b.icmp(ComparisonType::SignedLess, a, zero_w);
            proof {
                if c >= 1 {
                    lemma_shift_bits(a.bits(), c, wb, mask(ty));
                }
            }
            (r, cf, of)
        },
        ShiftOp::Sar => {
            let e = b.sext(a, IntType::I64);
            proof {
                lemma_sext_bits(ty, IntType::I64, a.bits());
                let m = mask(ty);
                let x = a.bits();
                assert(x | (0xffff_ffff_ffff_ffffu64 & !m) == x | !m) by (bit_vector);
            }
            let wide = b.lshr(e, c64);
            let r = b.trunc(wide, ty);
            proof {
                crate::state::lemma_mask_fits(ty, wide.bits());
            }
            let t = b.shl(e, one64);
            let u = b.lshr(t, c64);
            let bit = b.and(u, one64);
            let cf = b.icmp(ComparisonType::Equal, bit, one64);
            let of = b.make_false();
            proof {
                if c >= 1 {
                    lemma_sar_carry_bits(e.bits(), c);
                }
            }
            (r, cf, of)
        },
    }
}

/// Emits `op dst, count`. Both the result and the flags are selected on the count at run time,
/// so a count of zero leaves everything as it was.
pub fn lower_shift<B: Builder>(b: &mut B, op: ShiftOp, dst: Operand, count: Operand)
    requires
        old(b).state().well_formed(),
        shift_ok(dst, count),
    ensures
        final(b).state() == shift_spec(old(b).state(), op, dst, count),
{
    let ghost s0 = b.state();
    proof {
        lemma_operand_fits(s0, dst);
    }
    let reg = match dst {
        Operand::Register(r) => r,
        _ => Register::EAX,
    };
    let a = b.load_register(reg);
    let ty = a.size();
    let cnt = b.load_operand(count);
    let m5 = b.make_u8(0x1f);
    let c8 = b.and(cnt, m5);
    let ghost c = c8.bits();
    let ghost cb = cnt.bits();
    assert(c <= 31) by (bit_vector)
        requires
            c == cb & 0x1f,
    ;
    let (r, cf, of) = shift_values(b, op, a, c8);
    commit_shift(b, reg, a, r, cf, of, c8);
    proof {
        assert(c == shift_count(s0, count));
    }
}

/// Writes the outcome of a shift, unless the count `c8` is zero: then the register and every
/// flag keep their values. OF is written only for a count of one.
fn commit_shift<B: Builder>(
    b: &mut B,
    reg: Register,
    a: B::IntValue,
    r: B::IntValue,
    cf: B::BoolValue,
    of: B::BoolValue,
    c8: B::IntValue,
)
    requires
        old(b).state().well_formed(),
        alu_width(reg.width()),
        a.width() == reg.width(),
        r.width() == reg.width(),
        a.bits() == old(b).state().reg(reg),
        fits(reg.width(), a.bits()),
        fits(reg.width(), r.bits()),
        c8.width() == IntType::I8,
    ensures
        final(b).state() == if c8.bits() == 0 {
            old(b).state()
        } else {
            with_result_flags(old(b).state().with_reg(reg, r.bits()), reg.width(), r.bits()).with_flag(
                Flag::Carry,
                cf.truth(),
            ).with_flag(
                Flag::Overflow,
                if c8.bits() == 1 {
                    of.truth()
                } else {
                    old(b).state().flag(Flag::Overflow)
                },
            )
        },
{
    let ghost s0 = b.state();
    let zero8 = b.make_u8(0);
    let one8 = b.make_u8(1);
    let is_zero = b.icmp(ComparisonType::Equal, c8, zero8);
    let is_one = b.icmp(ComparisonType::Equal, c8, one8);
    let cf0 = b.load_flag(Flag::Carry);
    let of0 = b.load_flag(Flag::Overflow);
    let zf0 = b.load_flag(Flag::Zero);
    let sf0 = b.load_flag(Flag::Sign);
    let pf0 = b.load_flag(Flag::Parity);
    let r_final = b.select(is_zero, a, r);
    b.store_register(reg, r_final);
    crate::flags::store_result_flags(b, r_final);
    keep_flag_where(b, is_zero, Flag::Zero, zf0);
    keep_flag_where(b, is_zero, Flag::Sign, sf0);
    keep_flag_where(b, is_zero, Flag::Parity, pf0);
    let cf_final = select_bool(b, is_zero, cf0, cf);
    b.store_flag(Flag::Carry, cf_final);
    let of_final = select_bool(b, is_one, of, of0);
    b.store_flag(Flag::Overflow, of_final);
    proof {
        if c8.bits() == 0 {
            lemma_with_reg_same(s0, reg);
            assert(b.state().flags =~= s0.flags);
        } else {
            let target = with_result_flags(s0.with_reg(reg, r.bits()), reg.width(), r.bits()).with_flag(
                Flag::Carry,
                cf.truth(),
            ).with_flag(
                Flag::Overflow,
                if c8.bits() == 1 {
                    of.truth()
                } else {
                    s0.flag(Flag::Overflow)
                },
            );
            assert(b.state().flags =~= target.flags);
        }
    }
}

/// A 64-bit reduction tells apart the integers of the signed 64-bit range.
proof fn lemma_wrap64_injective(x: int, y: int)
    requires
        -0x8000_0000_0000_0000 <= x < 0x8000_0000_0000_0000,
        -0x8000_0000_0000_0000 <= y < 0x8000_0000_0000_0000,
    ensures
        (wrap(IntType::I64, x) == wrap(IntType::I64, y)) == (x == y),
{
    let m: int = 0x1_0000_0000_0000_0000;
    if x < 0 {
        lemma_mod_add_multiples_vanish(x, m);
        lemma_small_mod((x + m) as nat, m as nat);
    } else {
        lemma_small_mod(x as nat, m as nat);
    }
    if y < 0 {
        lemma_mod_add_multiples_vanish(y, m);
        lemma_small_mod((y + m) as nat, m as nat);
    } else {
        lemma_small_mod(y as nat, m as nat);
    }
}

/// The signed readings of a width lie in the signed 32-bit range at most.
proof fn lemma_signed_range(ty: IntType, x: u64)
    requires
        alu_width(ty),
        fits(ty, x),
    ensures
        -0x8000_0000 <= signed(ty, x) < 0x8000_0000,
        -(modulus(ty) as int) / 2 <= signed(ty, x) < (modulus(ty) as int) / 2,
{
}

/// What the two-operand `imul dst, src` does: the low half of the signed product; CF and OF
/// tell whether the product did not fit. The other flags are kept.
pub open spec fn imul_spec(s: MachineState, dst: Register, src: Operand) -> MachineState {
    let w = dst.width();
    let p = signed(w, s.reg(dst)) * signed(w, source_value(s, src, w));
    let r = wrap(w, p);
    s.with_reg(dst, r).with_flag(Flag::Carry, p != signed(w, r)).with_flag(
        Flag::Overflow,
        p != signed(w, r),
    )
}

pub fn lower_imul<B: Builder>(b: &mut B, dst: Register, src: Operand)
    requires
        old(b).state().well_formed(),
        dst.width() == IntType::I16 || dst.width() == IntType::I32,
        source_ok(src, dst.width()),
    ensures
        final(b).state() == imul_spec(old(b).state(), dst, src),
{
    let ghost s0 = b.state();
    let a = b.load_register(dst);
    let ty = a.size();
    proof {
        lemma_operand_fits(s0, Operand::Register(dst));
    }
    let v = load_source(b, src, ty);
    let sa = b.sext(a, IntType::I64);
    let sv = b.sext(v, IntType::I64);
    let p = b.mul(sa, sv);
    let r = b.trunc(p, ty);
    proof {
        crate::state::lemma_mask_fits(ty, p.bits());
    }
    let check = b.sext(r, IntType::I64);
    let ovf = b.icmp(ComparisonType::NotEqual, p, check);
    proof {
        let x = signed(ty, a.bits());
        let y = signed(ty, v.bits());
        let m64: int = 0x1_0000_0000_0000_0000;
        let mw = modulus(ty) as int;
        lemma_signed_range(ty, a.bits());
        lemma_signed_range(ty, v.bits());
        lemma_mul_mod_noop(x, y, m64);
        assert(-0x4000_0000_0000_0000 <= x * y <= 0x4000_0000_0000_0000) by (nonlinear_arith)
            requires
                -0x8000_0000 <= x < 0x8000_0000,
                -0x8000_0000 <= y < 0x8000_0000,
        ;
        let k: int = if ty == IntType::I16 {
            0x1_0000_0000_0000
        } else {
            0x1_0000_0000
        };
        assert(m64 == mw * k);
        lemma_mod_mod(x * y, mw, k);
        lemma_signed_range(ty, r.bits());
        lemma_wrap64_injective(x * y, signed(ty, r.bits()));
    }
    b.store_register(dst, r);
    b.store_flag(Flag::Carry, ovf);
    b.store_flag(Flag::Overflow, ovf);
}

/// What `mul src` does at 32 bits: EDX:EAX receives the product of EAX and `src`; CF and OF
/// tell whether its upper half is not zero. The other flags are kept.
pub open spec fn mul_spec(s: MachineState, src: Operand) -> MachineState {
    let p = s.reg(Register::EAX) * operand_value(s, src);
    s.with_reg(Register::EAX, (p % 0x1_0000_0000) as u64).with_reg(
        Register::EDX,
        (p / 0x1_0000_0000) as u64,
    ).with_flag(Flag::Carry, p >= 0x1_0000_0000).with_flag(Flag::Overflow, p >= 0x1_0000_0000)
}

pub fn lower_mul<B: Builder>(b: &mut B, src: Operand)
    requires
        old(b).state().well_formed(),
        operand_ok(src),
        src is Register || src is Memory,
        src.width() == IntType::I32,
    ensures
        final(b).state() == mul_spec(old(b).state(), src),
{
    let ghost s0 = b.state();
    proof {
        lemma_operand_fits(s0, src);
        lemma_operand_fits(s0, Operand::Register(Register::EAX));
    }
    let v = b.load_operand(src);
    let acc = b.load_register(Register::EAX);
    let wv = b.zext(v, IntType::I64);
    let wacc = b.zext(acc, IntType::I64);
    let p = b.mul(wacc, wv);
    let lo = b.trunc(p, IntType::I32);
    let k32 = b.make_u64(32);
    let shifted = b.lshr(p, k32);
    let hi = b.trunc(shifted, IntType::I32);
    let zero = b.make_u32(0);
    let ovf = b.icmp(ComparisonType::NotEqual, hi, zero);
    proof {
        let x = acc.bits() as int;
        let y = v.bits() as int;
        assert(0 <= x * y < 0x1_0000_0000_0000_0000) by (nonlinear_arith)
            requires
                0 <= x < 0x1_0000_0000,
                0 <= y < 0x1_0000_0000,
        ;
        lemma_small_mod((x * y) as nat, 0x1_0000_0000_0000_0000);
        crate::state::lemma_mask_fits(IntType::I32, p.bits());
        let pb = p.bits();
        assert(pb >> 32u64 == pb / 0x1_0000_0000 && pb / 0x1_0000_0000 <= 0xffff_ffff)
            by (bit_vector);
        crate::state::lemma_mask_fits(IntType::I32, shifted.bits());
        lemma_small_mod(shifted.bits() as nat, 0x1_0000_0000);
    }
    b.store_register(Register::EAX, lo);
    b.store_register(Register::EDX, hi);
    b.store_flag(Flag::Carry, ovf);
    b.store_flag(Flag::Overflow, ovf);
}

/// The dividend of a 32-bit `div`: EDX:EAX.
pub open spec fn div_dividend(s: MachineState) -> int {
    s.reg(Register::EDX) * 0x1_0000_0000 + s.reg(Register::EAX)
}

/// `div src` raises no divide error: the divisor is not zero and the quotient fits in 32 bits.
pub open spec fn div_defined(s: MachineState, src: Operand) -> bool {
    &&& operand_value(s, src) != 0
    &&& div_dividend(s) / (operand_value(s, src) as int) < 0x1_0000_0000
}

/// What `div src` does at 32 bits: EAX receives the quotient of EDX:EAX by `src`, EDX the
/// remainder. The flags are kept.
pub open spec fn div_spec(s: MachineState, src: Operand) -> MachineState {
    let n = div_dividend(s);
    let d = operand_value(s, src) as int;
    s.with_reg(Register::EAX, (n / d) as u64).with_reg(Register::EDX, (n % d) as u64)
}

/// Emits `div src`. The divide error is not emitted: the state must not raise it.
pub fn lower_div<B: Builder>(b: &mut B, src: Operand)
    requires
        old(b).state().well_formed(),
        operand_ok(src),
        src is Register || src is Memory,
        src.width() == IntType::I32,
        div_defined(old(b).state(), src),
    ensures
        final(b).state() == div_spec(old(b).state(), src),
{
    let ghost s0 = b.state();
    proof {
        lemma_operand_fits(s0, src);
        lemma_operand_fits(s0, Operand::Register(Register::EAX));
        lemma_operand_fits(s0, Operand::Register(Register::EDX));
    }
    let v = b.load_operand(src);
    let lo = b.load_register(Register::EAX);
    let hi = b.load_register(Register::EDX);
    let wlo = b.zext(lo, IntType::I64);
    let whi = b.zext(hi, IntType::I64);
    let k32 = b.make_u64(32);
    let up = b.shl(whi, k32);
    let n = b.or(up, wlo);
    proof {
        let h = hi.bits();
        let l = lo.bits();
        assert(((h << 32u64) & 0xffff_ffff_ffff_ffff) | l == h * 0x1_0000_0000 + l) by (bit_vector)
            requires
                h <= 0xffff_ffff,
                l <= 0xffff_ffff,
        ;
    }
    let d = b.zext(v, IntType::I64);
    let q = b.udiv(n, d);
    let rm = b.urem(n, d);
    let q32 = b.trunc(q, IntType::I32);
    let r32 = b.trunc(rm, IntType::I32);
    proof {
        crate::state::lemma_mask_fits(IntType::I32, q.bits());
        crate::state::lemma_mask_fits(IntType::I32, rm.bits());
        lemma_small_mod(q.bits() as nat, 0x1_0000_0000);
        lemma_small_mod(rm.bits() as nat, 0x1_0000_0000);
    }
    b.store_register(Register::EAX, q32);
    b.store_register(Register::EDX, r32);
}

/// AND, OR, XOR and TEST clear CF and OF and leave AF clear; NOT changes no flag.
pub proof fn lemma_logic_flags(s: MachineState, op: AluOp, dst: Operand, src: Operand)
    requires
        s.well_formed(),
        dest_ok(dst),
        source_ok(src, dst.width()),
        op == AluOp::And || op == AluOp::Or || op == AluOp::Xor || op == AluOp::Test,
    ensures
        !alu_spec(s, op, dst, src).flag(Flag::Carry),
        !alu_spec(s, op, dst, src).flag(Flag::Overflow),
        !alu_spec(s, op, dst, src).flag(Flag::AuxiliaryCarry),
        unary_spec(s, UnaryOp::Not, dst).flags == s.flags,
{
}

/// A shift whose masked count is zero changes neither its operand nor any flag, and only the
/// low five bits of an immediate count matter.
pub proof fn lemma_shift_count(s: MachineState, op: ShiftOp, dst: Operand, c: u8)
    requires
        s.well_formed(),
        shift_ok(dst, Operand::Immediate8(c)),
    ensures
        c & 0x1f == 0 ==> shift_spec(s, op, dst, Operand::Immediate8(c)) == s,
        shift_spec(s, op, dst, Operand::Immediate8(c)) == shift_spec(
            s,
            op,
            dst,
            Operand::Immediate8(c & 0x1f),
        ),
{
    assert((c as u64) & 0x1f == ((c & 0x1f) as u64) & 0x1f && ((c as u64) & 0x1f == 0) == (c
        & 0x1f == 0)) by (bit_vector);
}

} // verus!
