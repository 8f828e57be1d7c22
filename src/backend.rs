use vstd::prelude::*;
use crate::flow::{join_spec, Arm};
use crate::state::{load_le, signed, store_le, width_bytes, wrap, MachineState};
use crate::types::{
    mask,
    modulus,
    width_bits,
    ComparisonType,
    ControlFlow,
    Flag,
    IntType,
    MemoryOperand,
    Operand,
    Register,
};
use vstd::arithmetic::div_mod::{lemma_add_mod_noop, lemma_mod_twice, lemma_small_mod};

verus! {

/// A handle to an integer value of the emitted code.
pub trait IntValue: Sized + Copy {
    /// The width the value carries.
    spec fn width(&self) -> IntType;

    /// The value the handle stands for when the emitted code runs.
    spec fn bits(&self) -> u64;

    fn size(&self) -> (r: IntType)
        ensures
            r == self.width(),
    ;
}

/// A handle to a one-bit value of the emitted code.
pub trait BoolValue: Sized + Copy {
    /// The truth value the handle stands for when the emitted code runs.
    spec fn truth(&self) -> bool;
}

/// What `icmp` computes of two values of width `ty`.
pub open spec fn compare_spec(cmp: ComparisonType, ty: IntType, a: u64, b: u64) -> bool {
    match cmp {
        ComparisonType::Equal => a == b,
        ComparisonType::NotEqual => a != b,
        ComparisonType::UnsignedGreater => a > b,
        ComparisonType::UnsignedGreaterOrEqual => a >= b,
        ComparisonType::UnsignedLess => a < b,
        ComparisonType::UnsignedLessOrEqual => a <= b,
        ComparisonType::SignedGreater => signed(ty, a) > signed(ty, b),
        ComparisonType::SignedGreaterOrEqual => signed(ty, a) >= signed(ty, b),
        ComparisonType::SignedLess => signed(ty, a) < signed(ty, b),
        ComparisonType::SignedLessOrEqual => signed(ty, a) <= signed(ty, b),
    }
}

/// `x` with all the bits above its width set where its sign bit is set: its sign extension
/// to 64 bits.
pub open spec fn sign_fill(ty: IntType, x: u64) -> u64 {
    if x >= (modulus(ty) / 2) as u64 {
        x | !mask(ty)
    } else {
        x
    }
}

/// A memory operand the core can address: a flat segment, 32-bit base and index registers,
/// a scale of 1, 2, 4 or 8, a displacement that fits in 32 signed bits, and a size.
pub open spec fn memory_operand_ok(m: MemoryOperand) -> bool {
    &&& m.segment is None
    &&& m.size is Some
    &&& (m.scale == 1 || m.scale == 2 || m.scale == 4 || m.scale == 8)
    &&& -0x8000_0000 <= m.displacement < 0x8000_0000
    &&& m.base is Some ==> m.base->Some_0.width() == IntType::I32
    &&& m.index is Some ==> m.index->Some_0.width() == IntType::I32
}

/// An operand the core can read: anything but a far branch.
pub open spec fn operand_ok(op: Operand) -> bool {
    match op {
        Operand::FarBranch(_, _) => false,
        Operand::Memory(m) => memory_operand_ok(m),
        _ => true,
    }
}

pub open spec fn base_part(s: MachineState, m: MemoryOperand) -> int {
    match m.base {
        Some(r) => s.reg(r) as int,
        None => 0,
    }
}

pub open spec fn index_part(s: MachineState, m: MemoryOperand) -> int {
    match m.index {
        Some(r) => s.reg(r) * (m.scale as int),
        None => 0,
    }
}

/// `(base + index * scale + displacement) mod 2^32`.
pub open spec fn effective_address(s: MachineState, m: MemoryOperand) -> u32 {
    ((m.displacement + base_part(s, m) + index_part(s, m)) % 0x1_0000_0000) as u32
}

/// The value an operand reads as.
pub open spec fn operand_value(s: MachineState, op: Operand) -> u64 {
    match op {
        Operand::Register(r) => s.reg(r),
        Operand::Immediate8(v) => v as u64,
        Operand::Immediate16(v) => v as u64,
        Operand::Immediate32(v) => v as u64,
        Operand::Immediate64(v) => v,
        Operand::Memory(m) => load_le(
            s.mem,
            effective_address(s, m),
            width_bytes(m.size->Some_0),
        ) as u64,
        Operand::FarBranch(_, _) => 0,
    }
}

/// The state after `v` is written to a register or memory operand.
pub open spec fn store_operand_spec(s: MachineState, op: Operand, v: u64) -> MachineState {
    match op {
        Operand::Register(r) => s.with_reg(r, v),
        Operand::Memory(m) => MachineState {
            mem: store_le(s.mem, effective_address(s, m), v as nat, width_bytes(m.size->Some_0)),
            ..s
        },
        _ => s,
    }
}

/// What an arm of `ifelse` does to the state.
pub open spec fn apply_arm<V: IntValue>(s: MachineState, arm: Arm<V>) -> MachineState {
    match arm {
        Arm::Continue => s,
        Arm::StoreRegister(r, v) => s.with_reg(r, v.bits()),
        Arm::Jump(t) => s.with_exit(t),
    }
}

pub open spec fn arm_ok<V: IntValue>(arm: Arm<V>) -> bool {
    match arm {
        Arm::StoreRegister(r, v) => v.width() == r.width() && (v.bits() as nat) < modulus(
            r.width(),
        ),
        _ => true,
    }
}

/// The surface through which instruction semantics are emitted. `state` is the guest state
/// that the emitted code will have reached at the current point of emission.
pub trait Builder: Sized {
    type IntValue: IntValue;

    type BoolValue: BoolValue;

    spec fn state(&self) -> MachineState;

    /// A constant of width `ty` holding the low bits of `value`. `sign_extend` tells how to
    /// fill bits above the 64 of `value`, which no width here has.
    fn make_int_value(&self, ty: IntType, value: u64, sign_extend: bool) -> (r: Self::IntValue)
        ensures
            r.width() == ty,
            r.bits() == value & mask(ty),
    ;

    fn make_u8(&self, value: u8) -> (r: Self::IntValue)
        ensures
            r.width() == IntType::I8,
            r.bits() == value as u64,
    {
        let r = self.make_int_value(IntType::I8, value as u64, false);
        assert(value as u64 & 0xff == value as u64) by (bit_vector);
        r
    }

    fn make_u16(&self, value: u16) -> (r: Self::IntValue)
        ensures
            r.width() == IntType::I16,
            r.bits() == value as u64,
    {
        let r = self.make_int_value(IntType::I16, value as u64, false);
        assert(value as u64 & 0xffff == value as u64) by (bit_vector);
        r
    }

    fn make_u32(&self, value: u32) -> (r: Self::IntValue)
        ensures
            r.width() == IntType::I32,
            r.bits() == value as u64,
    {
        let r = self.make_int_value(IntType::I32, value as u64, false);
        assert(value as u64 & 0xffff_ffff == value as u64) by (bit_vector);
        r
    }

    fn make_u64(&self, value: u64) -> (r: Self::IntValue)
        ensures
            r.width() == IntType::I64,
            r.bits() == value,
    {
        let r = self.make_int_value(IntType::I64, value, false);
        assert(value & 0xffff_ffff_ffff_ffff == value) by (bit_vector);
        r
    }

    fn make_true(&self) -> (r: Self::BoolValue)
        ensures
            r.truth(),
    ;

    fn make_false(&self) -> (r: Self::BoolValue)
        ensures
            !r.truth(),
    ;

    fn load_register(&mut self, register: Register) -> (r: Self::IntValue)
        requires
            old(self).state().well_formed(),
        ensures
            final(self).state() == old(self).state(),
            r.width() == register.width(),
            r.bits() == old(self).state().reg(register),
    ;

    fn store_register(&mut self, register: Register, value: Self::IntValue)
        requires
            old(self).state().well_formed(),
            value.width() == register.width(),
        ensures
            final(self).state() == old(self).state().with_reg(register, value.bits()),
    ;

    fn load_flag(&mut self, flag: Flag) -> (r: Self::BoolValue)
        requires
            old(self).state().well_formed(),
        ensures
            final(self).state() == old(self).state(),
            r.truth() == old(self).state().flag(flag),
    ;

    fn store_flag(&mut self, flag: Flag, value: Self::BoolValue)
        requires
            old(self).state().well_formed(),
        ensures
            final(self).state() == old(self).state().with_flag(flag, value.truth()),
    ;

    fn load_memory(&mut self, size: IntType, address: Self::IntValue) -> (r: Self::IntValue)
        requires
            old(self).state().well_formed(),
            address.width() == IntType::I32,
            (address.bits() as nat) < modulus(IntType::I32),
        ensures
            final(self).state() == old(self).state(),
            r.width() == size,
            r.bits() as nat == load_le(
                old(self).state().mem,
                address.bits() as u32,
                width_bytes(size),
            ),
    ;

    fn store_memory(&mut self, address: Self::IntValue, value: Self::IntValue)
        requires
            old(self).state().well_formed(),
            address.width() == IntType::I32,
            (address.bits() as nat) < modulus(IntType::I32),
        ensures
            final(self).state() == (MachineState {
                mem: store_le(
                    old(self).state().mem,
                    address.bits() as u32,
                    value.bits() as nat,
                    width_bytes(value.width()),
                ),
                ..old(self).state()
            }),
    ;

    fn add(&mut self, lhs: Self::IntValue, rhs: Self::IntValue) -> (r: Self::IntValue)
        requires
            lhs.width() == rhs.width(),
        ensures
            final(self).state() == old(self).state(),
            r.width() == lhs.width(),
            r.bits() == wrap(lhs.width(), lhs.bits() + rhs.bits()),
    ;

    fn sub(&mut self, lhs: Self::IntValue, rhs: Self::IntValue) -> (r: Self::IntValue)
        requires
            lhs.width() == rhs.width(),
        ensures
            final(self).state() == old(self).state(),
            r.width() == lhs.width(),
            r.bits() == wrap(lhs.width(), lhs.bits() - rhs.bits()),
    ;

    fn mul(&mut self, lhs: Self::IntValue, rhs: Self::IntValue) -> (r: Self::IntValue)
        requires
            lhs.width() == rhs.width(),
        ensures
            final(self).state() == old(self).state(),
            r.width() == lhs.width(),
            r.bits() == wrap(lhs.width(), lhs.bits() * rhs.bits()),
    ;

    fn int_neg(&mut self, val: Self::IntValue) -> (r: Self::IntValue)
        ensures
            final(self).state() == old(self).state(),
            r.width() == val.width(),
            r.bits() == wrap(val.width(), 0 - val.bits()),
    ;

    fn xor(&mut self, lhs: Self::IntValue, rhs: Self::IntValue) -> (r: Self::IntValue)
        requires
            lhs.width() == rhs.width(),
        ensures
            final(self).state() == old(self).state(),
            r.width() == lhs.width(),
            r.bits() == lhs.bits() ^ rhs.bits(),
    ;

    fn or(&mut self, lhs: Self::IntValue, rhs: Self::IntValue) -> (r: Self::IntValue)
        requires
            lhs.width() == rhs.width(),
        ensures
            final(self).state() == old(self).state(),
            r.width() == lhs.width(),
            r.bits() == lhs.bits() | rhs.bits(),
    ;

    fn and(&mut self, lhs: Self::IntValue, rhs: Self::IntValue) -> (r: Self::IntValue)
        requires
            lhs.width() == rhs.width(),
        ensures
            final(self).state() == old(self).state(),
            r.width() == lhs.width(),
            r.bits() == lhs.bits() & rhs.bits(),
    ;

    /// Left shift; the count must be below the width.
    fn shl(&mut self, lhs: Self::IntValue, rhs: Self::IntValue) -> (r: Self::IntValue)
        requires
            lhs.width() == rhs.width(),
            (rhs.bits() as nat) < width_bits(lhs.width()),
        ensures
            final(self).state() == old(self).state(),
            r.width() == lhs.width(),
            r.bits() == (lhs.bits() << rhs.bits()) & mask(lhs.width()),
    ;

    /// Logical right shift; the count must be below the width.
    fn lshr(&mut self, lhs: Self::IntValue, rhs: Self::IntValue) -> (r: Self::IntValue)
        requires
            lhs.width() == rhs.width(),
            (rhs.bits() as nat) < width_bits(lhs.width()),
        ensures
            final(self).state() == old(self).state(),
            r.width() == lhs.width(),
            r.bits() == lhs.bits() >> rhs.bits(),
    ;

    /// Arithmetic right shift (the bits shifted in copy the sign bit); the count must be below
    /// the width.
    fn ashr(&mut self, lhs: Self::IntValue, rhs: Self::IntValue) -> (r: Self::IntValue)
        requires
            lhs.width() == rhs.width(),
            (rhs.bits() as nat) < width_bits(lhs.width()),
            (lhs.bits() as nat) < modulus(lhs.width()),
        ensures
            final(self).state() == old(self).state(),
            r.width() == lhs.width(),
            r.bits() == (sign_fill(lhs.width(), lhs.bits()) >> rhs.bits()) & mask(lhs.width()),
    ;

    /// Unsigned division; the divisor must not be zero.
    fn udiv(&mut self, lhs: Self::IntValue, rhs: Self::IntValue) -> (r: Self::IntValue)
        requires
            lhs.width() == rhs.width(),
            rhs.bits() != 0,
        ensures
            final(self).state() == old(self).state(),
            r.width() == lhs.width(),
            r.bits() == lhs.bits() / rhs.bits(),
    ;

    /// Unsigned remainder; the divisor must not be zero.
    fn urem(&mut self, lhs: Self::IntValue, rhs: Self::IntValue) -> (r: Self::IntValue)
        requires
            lhs.width() == rhs.width(),
            rhs.bits() != 0,
        ensures
            final(self).state() == old(self).state(),
            r.width() == lhs.width(),
            r.bits() == lhs.bits() % rhs.bits(),
    ;

    /// `a` where `cond` holds, `b` elsewhere.
    fn select(&mut self, cond: Self::BoolValue, a: Self::IntValue, b: Self::IntValue) -> (r:
        Self::IntValue)
        requires
            a.width() == b.width(),
        ensures
            final(self).state() == old(self).state(),
            r.width() == a.width(),
            r.bits() == if cond.truth() {
                a.bits()
            } else {
                b.bits()
            },
    ;

    fn bool_neg(&mut self, val: Self::BoolValue) -> (r: Self::BoolValue)
        ensures
            final(self).state() == old(self).state(),
            r.truth() == !val.truth(),
    ;

    fn bool_and(&mut self, lhs: Self::BoolValue, rhs: Self::BoolValue) -> (r: Self::BoolValue)
        ensures
            final(self).state() == old(self).state(),
            r.truth() == (lhs.truth() && rhs.truth()),
    ;

    fn bool_or(&mut self, lhs: Self::BoolValue, rhs: Self::BoolValue) -> (r: Self::BoolValue)
        ensures
            final(self).state() == old(self).state(),
            r.truth() == (lhs.truth() || rhs.truth()),
    ;

    fn icmp(&mut self, cmp: ComparisonType, lhs: Self::IntValue, rhs: Self::IntValue) -> (r:
        Self::BoolValue)
        requires
            lhs.width() == rhs.width(),
        ensures
            final(self).state() == old(self).state(),
            r.truth() == compare_spec(cmp, lhs.width(), lhs.bits(), rhs.bits()),
    ;

    /// Zero extension to a width at least as wide.
    fn zext(&mut self, val: Self::IntValue, to: IntType) -> (r: Self::IntValue)
        requires
            width_bits(val.width()) <= width_bits(to),
        ensures
            final(self).state() == old(self).state(),
            r.width() == to,
            r.bits() == val.bits(),
    ;

    /// Sign extension to a width at least as wide.
    fn sext(&mut self, val: Self::IntValue, to: IntType) -> (r: Self::IntValue)
        requires
            width_bits(val.width()) <= width_bits(to),
            (val.bits() as nat) < modulus(val.width()),
        ensures
            final(self).state() == old(self).state(),
            r.width() == to,
            r.bits() == wrap(to, signed(val.width(), val.bits())),
    ;

    /// Truncation to a width at most as wide.
    fn trunc(&mut self, val: Self::IntValue, to: IntType) -> (r: Self::IntValue)
        requires
            width_bits(to) <= width_bits(val.width()),
        ensures
            final(self).state() == old(self).state(),
            r.width() == to,
            r.bits() == val.bits() & mask(to),
    ;

    /// Emits a two-way branch on `cond`; each arm runs its body and leaves as its flow says.
    /// The result lists the exits of both arms.
    fn ifelse(&mut self, cond: Self::BoolValue, iftrue: Arm<Self::IntValue>, iffalse: Arm<
        Self::IntValue,
    >) -> (r: ControlFlow)
        requires
            old(self).state().well_formed(),
            arm_ok(iftrue),
            arm_ok(iffalse),
        ensures
            final(self).state() == if cond.truth() {
                apply_arm(old(self).state(), iftrue)
            } else {
                apply_arm(old(self).state(), iffalse)
            },
            join_spec(iftrue.flow(), iffalse.flow(), r),
    ;

    /// Emits the effective address of a memory operand.
    fn compute_memory_operand_address(&mut self, op: MemoryOperand) -> (r: Self::IntValue)
        requires
            old(self).state().well_formed(),
            memory_operand_ok(op),
        ensures
            final(self).state() == old(self).state(),
            r.width() == IntType::I32,
            r.bits() == effective_address(old(self).state(), op) as u64,
    {
        let d = op.displacement;
        let du: u32 = if d >= 0 {
            d as u32
        } else {
            (d + 0x1_0000_0000) as u32
        };
        let mut res = self.make_u32(du);
        proof {
            lemma_small_mod(du as nat, 0x1_0000_0000);
        }
        if let Some(base) = op.base {
            let base_val = self.load_register(base);
            res = self.add(res, base_val);
        }
        if let Some(index) = op.index {
            let index_val = self.load_register(index);
            let scale = self.make_u32(op.scale as u32);
            let scaled = self.mul(index_val, scale);
            res = self.add(res, scaled);
            proof {
                lemma_add_mod_noop(
                    d + base_part(old(self).state(), op),
                    index_val.bits() * (op.scale as int),
                    0x1_0000_0000,
                );
            }
        }
        proof {
            lemma_add_mod_noop(d as int, base_part(old(self).state(), op), 0x1_0000_0000);
            lemma_add_mod_noop(
                d + base_part(old(self).state(), op),
                index_part(old(self).state(), op),
                0x1_0000_0000,
            );
            lemma_mod_twice(d as int, 0x1_0000_0000);
        }
        res
    }

    /// Emits a read of any operand but a far branch.
    fn load_operand(&mut self, operand: Operand) -> (r: Self::IntValue)
        requires
            old(self).state().well_formed(),
            operand_ok(operand),
        ensures
            final(self).state() == old(self).state(),
            r.width() == operand.width(),
            r.bits() == operand_value(old(self).state(), operand),
    {
        match operand {
            Operand::Register(reg) => self.load_register(reg),
            Operand::Immediate8(v) => self.make_u8(v),
            Operand::Immediate16(v) => self.make_u16(v),
            Operand::Immediate32(v) => self.make_u32(v),
            Operand::Immediate64(v) => self.make_u64(v),
            Operand::Memory(op) => {
                let addr = self.compute_memory_operand_address(op);
                self.load_memory(op.size.unwrap(), addr)
            },
            Operand::FarBranch(_, _) => self.make_u32(0),
        }
    }

    /// Emits a write of `value` to a register or memory operand.
    fn store_operand(&mut self, operand: Operand, value: Self::IntValue)
        requires
            old(self).state().well_formed(),
            operand_ok(operand),
            operand is Register || operand is Memory,
            value.width() == operand.width(),
        ensures
            final(self).state() == store_operand_spec(old(self).state(), operand, value.bits()),
    {
        match operand {
            Operand::Register(reg) => self.store_register(reg, value),
            Operand::Memory(op) => {
                let addr = self.compute_memory_operand_address(op);
                self.store_memory(addr, value)
            },
            _ => {},
        }
    }

    /// Leaves the block for the address held by `target` (a return or an indirect jump).
    fn exit_to(&mut self, target: Self::IntValue)
        requires
            target.width() == IntType::I32,
        ensures
            final(self).state() == old(self).state().with_exit(target.bits() as u32),
    ;
}

} // verus!
