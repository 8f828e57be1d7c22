use vstd::prelude::*;
use vstd::arithmetic::div_mod::lemma_mod_add_multiples_vanish;
use std::collections::HashMap;
use crate::backend::{BoolValue, Builder, IntValue};
use crate::flow::{join, Arm};
use crate::state::{
    addr_plus,
    fits,
    lemma_mask_fits,
    lemma_bitwise_fits,
    lemma_sext_bits,
    sign_bit,
    lemma_load_le_bound,
    load_le,
    mem_byte,
    pow256,
    signed,
    store_le,
    width_bytes,
    MachineState,
};
use crate::types::{
    mask,
    modulus,
    write_alias,
    ComparisonType,
    ControlFlow,
    CpuContext,
    Flag,
    IntType,
    Register,
};

verus! {

broadcast use vstd::std_specs::hash::group_hash_axioms;

/// An integer of one width, held as its unsigned value.
#[derive(Debug, Clone, Copy)]
pub struct Value {
    ty: IntType,
    bits: u64,
}

impl Value {
    #[verifier::type_invariant]
    spec fn inv(self) -> bool {
        fits(self.ty, self.bits)
    }

    pub fn new(ty: IntType, bits: u64) -> (r: Value)
        requires
            fits(ty, bits),
        ensures
            r.width() == ty,
            r.bits() == bits,
    {
        Value { ty, bits }
    }

    pub fn value(&self) -> (r: u64)
        ensures
            r == self.bits(),
            fits(self.width(), r),
    {
        proof {
            use_type_invariant(self);
        }
        self.bits
    }
}

impl IntValue for Value {
    closed spec fn width(&self) -> IntType {
        self.ty
    }

    closed spec fn bits(&self) -> u64 {
        self.bits
    }

    fn size(&self) -> (r: IntType) {
        self.ty
    }
}

impl BoolValue for bool {
    open spec fn truth(&self) -> bool {
        *self
    }
}

fn modulus_of(ty: IntType) -> (r: u128)
    ensures
        r as nat == modulus(ty),
{
    match ty {
        IntType::I8 => 0x100,
        IntType::I16 => 0x1_0000,
        IntType::I32 => 0x1_0000_0000,
        IntType::I64 => 0x1_0000_0000_0000_0000,
    }
}

fn sign_bit_of(ty: IntType) -> (r: u64)
    ensures
        r == sign_bit(ty),
{
    match ty {
        IntType::I8 => 0x80,
        IntType::I16 => 0x8000,
        IntType::I32 => 0x8000_0000,
        IntType::I64 => 0x8000_0000_0000_0000,
    }
}

/// The sign bit is set exactly on the values of the upper half.
proof fn lemma_sign_bit(ty: IntType, a: u64)
    requires
        fits(ty, a),
    ensures
        (a & sign_bit(ty) != 0) == (a >= sign_bit(ty)),
{
    match ty {
        IntType::I8 => {
            assert(a <= 0xff ==> ((a & 0x80 != 0) == (a >= 0x80))) by (bit_vector);
        },
        IntType::I16 => {
            assert(a <= 0xffff ==> ((a & 0x8000 != 0) == (a >= 0x8000))) by (bit_vector);
        },
        IntType::I32 => {
            assert(a <= 0xffff_ffff ==> ((a & 0x8000_0000 != 0) == (a >= 0x8000_0000)))
                by (bit_vector);
        },
        IntType::I64 => {
            assert((a & 0x8000_0000_0000_0000 != 0) == (a >= 0x8000_0000_0000_0000))
                by (bit_vector);
        },
    }
}

/// Flipping the sign bit adds half the modulus to the signed reading.
proof fn lemma_flip_sign(ty: IntType, a: u64)
    requires
        fits(ty, a),
    ensures
        (a ^ sign_bit(ty)) as int == signed(ty, a) + sign_bit(ty),
{
    match ty {
        IntType::I8 => {
            assert(a <= 0xff ==> (a ^ 0x80) == if a < 0x80 { a + 0x80 } else { a - 0x80 })
                by (bit_vector);
        },
        IntType::I16 => {
            assert(a <= 0xffff ==> (a ^ 0x8000) == if a < 0x8000 { a + 0x8000 } else { a - 0x8000 })
                by (bit_vector);
        },
        IntType::I32 => {
            assert(a <= 0xffff_ffff ==> (a ^ 0x8000_0000) == if a < 0x8000_0000 {
                a + 0x8000_0000
            } else {
                a - 0x8000_0000
            }) by (bit_vector);
        },
        IntType::I64 => {
            assert((a ^ 0x8000_0000_0000_0000) == if a < 0x8000_0000_0000_0000 {
                a + 0x8000_0000_0000_0000
            } else {
                a - 0x8000_0000_0000_0000
            }) by (bit_vector);
        },
    }
}

/// A builder that runs what it is asked to emit, at once, on a context and a guest memory of
/// its own. Its values are the integers themselves.
pub struct Interpreter {
    pub ctx: CpuContext,
    memory: HashMap<u32, u8>,
    exit: Option<u32>,
}

impl Interpreter {
    /// An interpreter on `ctx`, with a guest memory that reads as zero everywhere.
    pub fn new(ctx: CpuContext) -> (r: Interpreter)
        ensures
            r.state().regs == ctx.gp_regs@,
            r.state().flags == ctx.flags@.map_values(|b: u8| b != 0),
            r.state().mem == Map::<u32, u8>::empty(),
            r.state().exit is None,
            r.state().well_formed(),
    {
        Interpreter { ctx, memory: HashMap::new(), exit: None }
    }

    /// The register and flag slots of an interpreter always number eight.
    pub proof fn lemma_well_formed(&self)
        ensures
            self.state().well_formed(),
    {
    }

    /// Puts one byte into guest memory.
    pub fn poke(&mut self, addr: u32, byte: u8)
        ensures
            final(self).state() == (MachineState {
                mem: old(self).state().mem.insert(addr, byte),
                ..old(self).state()
            }),
    {
        self.memory.insert(addr, byte);
    }

    /// Reads one byte of guest memory.
    pub fn peek(&self, addr: u32) -> (r: u8)
        ensures
            r == mem_byte(self.state().mem, addr),
    {
        match self.memory.get(&addr) {
            Some(b) => *b,
            None => 0,
        }
    }

    /// Where the last instruction left control early, if it did.
    pub fn exit(&self) -> (r: Option<u32>)
        ensures
            r == self.state().exit,
    {
        self.exit
    }

    /// Forgets the early exit, so that the next instruction may be run.
    pub fn clear_exit(&mut self)
        ensures
            final(self).state() == (MachineState { exit: None, ..old(self).state() }),
    {
        self.exit = None;
    }

    pub fn register(&self, r: Register) -> (v: u64)
        ensures
            v == self.state().reg(r),
    {
        let full = self.ctx.gp_regs[r.parent_register().index()];
        match r.size() {
            IntType::I32 => full as u64,
            IntType::I16 => (full & 0xffff) as u64,
            _ => {
                if r.high_byte() {
                    ((full >> 8u32) & 0xff) as u64
                } else {
                    (full & 0xff) as u64
                }
            },
        }
    }

    pub fn flag(&self, f: Flag) -> (b: bool)
        ensures
            b == self.state().flag(f),
    {
        self.ctx.flags[f.index()] != 0
    }
}

impl Builder for Interpreter {
    type IntValue = Value;

    type BoolValue = bool;

    closed spec fn state(&self) -> MachineState {
        MachineState {
            regs: self.ctx.gp_regs@,
            flags: self.ctx.flags@.map_values(|b: u8| b != 0),
            mem: self.memory@,
            exit: self.exit,
        }
    }

    fn make_int_value(&self, ty: IntType, value: u64, _sign_extend: bool) -> (r: Value) {
        proof {
            lemma_mask_fits(ty, value);
        }
        let r = Value { ty, bits: value & ty.mask() };
        assert(r.width() == ty && r.bits() == value & mask(ty));
        r
    }

    fn make_true(&self) -> (r: bool) {
        true
    }

    fn make_false(&self) -> (r: bool) {
        false
    }

    fn load_register(&mut self, register: Register) -> (r: Value) {
        let v = self.register(register);
        assert(fits(register.width(), v)) by {
            let full = self.ctx.gp_regs@[register.parent().slot() as int];
            assert((full & 0xffff) <= 0xffff && (full & 0xff) <= 0xff && ((full >> 8u32) & 0xff)
                <= 0xff) by (bit_vector);
        }
        Value { ty: register.size(), bits: v }
    }

    fn store_register(&mut self, register: Register, value: Value) {
        let i = register.parent_register().index();
        let full = self.ctx.gp_regs[i];
        let v = value.value();
        let new_full: u32 = match register.size() {
            IntType::I32 => v as u32,
            IntType::I16 => (full & 0xffff_0000) | ((v as u32) & 0xffff),
            _ => {
                if register.high_byte() {
                    (full & 0xffff_00ff) | (((v as u32) & 0xff) << 8u32)
                } else {
                    (full & 0xffff_ff00) | ((v as u32) & 0xff)
                }
            },
        };
        assert(new_full == write_alias(full, register, v));
        self.ctx.gp_regs[i] = new_full;
        assert(self.state().regs == old(self).state().with_reg(register, value.bits()).regs);
    }

    fn load_flag(&mut self, flag: Flag) -> (r: bool) {
        self.flag(flag)
    }

    fn store_flag(&mut self, flag: Flag, value: bool) {
        let i = flag.index();
        self.ctx.flags[i] = if value {
            1
        } else {
            0
        };
        assert(self.state().flags =~= old(self).state().with_flag(flag, value).flags);
    }

    fn load_memory(&mut self, size: IntType, address: Value) -> (r: Value) {
        let a = address.value() as u32;
        let n: u32 = (size.bit_width() / 8) as u32;
        let ghost m = self.memory@;
        let mut acc: u64 = 0;
        let mut i: u32 = n;
        while i > 0
            invariant
                i <= n,
                n as nat == width_bytes(size),
                self.memory@ == m,
                acc as nat == load_le(m, addr_plus(a, i as int), (n - i) as nat),
            decreases i,
        {
            i = i - 1;
            let at: u32 = a.wrapping_add(i);
            assert(at == addr_plus(a, i as int));
            assert(addr_plus(at, 1) == addr_plus(a, i + 1));
            let b = self.peek(at);
            proof {
                lemma_load_le_bound(m, addr_plus(a, i + 1), (n - i - 1) as nat);
                assert(pow256((n - i - 1) as nat) <= pow256(7)) by {
                    reveal_with_fuel(pow256, 9);
                }
                reveal_with_fuel(pow256, 9);
                assert(acc * 256 + b <= 0xffff_ffff_ffff_ffff);
            }
            acc = acc * 256 + b as u64;
        }
        proof {
            lemma_load_le_bound(m, a, n as nat);
            reveal_with_fuel(pow256, 9);
        }
        assert(fits(size, acc));
        Value { ty: size, bits: acc }
    }

    fn store_memory(&mut self, address: Value, value: Value) {
        let a0 = address.value() as u32;
        assert(a0 == address.bits() as u32);
        let n: u32 = (value.size().bit_width() / 8) as u32;
        let ghost target = store_le(
            self.memory@,
            a0,
            value.bits() as nat,
            width_bytes(value.width()),
        );
        let mut v: u64 = value.value();
        let mut a: u32 = a0;
        let mut i: u32 = 0;
        while i < n
            invariant
                i <= n,
                n as nat == width_bytes(value.width()),
                store_le(self.memory@, a, v as nat, (n - i) as nat) == target,
                self.ctx == old(self).ctx,
                self.exit == old(self).exit,
            decreases n - i,
        {
            let ghost before = self.memory@;
            assert(store_le(before, a, v as nat, (n - i) as nat) == store_le(
                before.insert(a, (v % 256) as u8),
                addr_plus(a, 1),
                v as nat / 256,
                (n - i - 1) as nat,
            ));
            self.memory.insert(a, (v % 256) as u8);
            v = v / 256;
            a = a.wrapping_add(1);
            i = i + 1;
        }
        assert(store_le(self.memory@, a, v as nat, 0) == self.memory@);
    }

    fn add(&mut self, lhs: Value, rhs: Value) -> (r: Value) {
        let m = modulus_of(lhs.ty);
        let x = ((lhs.value() as u128 + rhs.value() as u128) % m) as u64;
        Value { ty: lhs.ty, bits: x }
    }

    fn sub(&mut self, lhs: Value, rhs: Value) -> (r: Value) {
        let m = modulus_of(lhs.ty);
        let a = lhs.value();
        let b = rhs.value();
        let x = ((a as u128 + m - b as u128) % m) as u64;
        proof {
            lemma_mod_add_multiples_vanish(a - b, m as int);
        }
        Value { ty: lhs.ty, bits: x }
    }

    fn mul(&mut self, lhs: Value, rhs: Value) -> (r: Value) {
        let m = modulus_of(lhs.ty);
        let a = lhs.value();
        let b = rhs.value();
        assert((a as u128) * (b as u128) <= 0xffff_ffff_ffff_ffff_ffff_ffff_ffff_ffff)
            by (nonlinear_arith)
            requires
                a <= 0xffff_ffff_ffff_ffff,
                b <= 0xffff_ffff_ffff_ffff,
        ;
        let x = ((a as u128 * b as u128) % m) as u64;
        Value { ty: lhs.ty, bits: x }
    }

    fn int_neg(&mut self, val: Value) -> (r: Value) {
        let m = modulus_of(val.ty);
        let a = val.value();
        let x = ((m - a as u128) % m) as u64;
        proof {
            lemma_mod_add_multiples_vanish(0 - a, m as int);
        }
        Value { ty: val.ty, bits: x }
    }

    fn xor(&mut self, lhs: Value, rhs: Value) -> (r: Value) {
        proof {
            use_type_invariant(&lhs);
            use_type_invariant(&rhs);
            lemma_bitwise_fits(lhs.ty, lhs.bits, rhs.bits);
        }
        Value { ty: lhs.ty, bits: lhs.value() ^ rhs.value() }
    }

    fn or(&mut self, lhs: Value, rhs: Value) -> (r: Value) {
        proof {
            use_type_invariant(&lhs);
            use_type_invariant(&rhs);
            lemma_bitwise_fits(lhs.ty, lhs.bits, rhs.bits);
        }
        Value { ty: lhs.ty, bits: lhs.value() | rhs.value() }
    }

    fn and(&mut self, lhs: Value, rhs: Value) -> (r: Value) {
        proof {
            use_type_invariant(&lhs);
            use_type_invariant(&rhs);
            lemma_bitwise_fits(lhs.ty, lhs.bits, rhs.bits);
        }
        Value { ty: lhs.ty, bits: lhs.value() & rhs.value() }
    }

    fn shl(&mut self, lhs: Value, rhs: Value) -> (r: Value) {
        let x = (lhs.value() << rhs.value()) & lhs.ty.mask();
        proof {
            lemma_mask_fits(lhs.ty, lhs.bits << rhs.bits);
        }
        Value { ty: lhs.ty, bits: x }
    }

    fn lshr(&mut self, lhs: Value, rhs: Value) -> (r: Value) {
        let a = lhs.value();
        let s = rhs.value();
        let x = a >> s;
        assert(x <= a) by (bit_vector)
            requires
                x == a >> s,
        ;
        Value { ty: lhs.ty, bits: x }
    }

    fn ashr(&mut self, lhs: Value, rhs: Value) -> (r: Value) {
        let a = lhs.value();
        let s = rhs.value();
        let m = lhs.ty.mask();
        let e = if a & sign_bit_of(lhs.ty) != 0 {
            a | !m
        } else {
            a
        };
        proof {
            lemma_sign_bit(lhs.ty, a);
            lemma_mask_fits(lhs.ty, e >> s);
        }
        Value { ty: lhs.ty, bits: (e >> s) & m }
    }

    fn udiv(&mut self, lhs: Value, rhs: Value) -> (r: Value) {
        let x = lhs.value() / rhs.value();
        Value { ty: lhs.ty, bits: x }
    }

    fn urem(&mut self, lhs: Value, rhs: Value) -> (r: Value) {
        let x = lhs.value() % rhs.value();
        Value { ty: lhs.ty, bits: x }
    }

    fn select(&mut self, cond: bool, a: Value, b: Value) -> (r: Value) {
        if cond {
            a
        } else {
            b
        }
    }

    fn bool_neg(&mut self, val: bool) -> (r: bool) {
        !val
    }

    fn bool_and(&mut self, lhs: bool, rhs: bool) -> (r: bool) {
        lhs && rhs
    }

    fn bool_or(&mut self, lhs: bool, rhs: bool) -> (r: bool) {
        lhs || rhs
    }

    fn icmp(&mut self, cmp: ComparisonType, lhs: Value, rhs: Value) -> (r: bool) {
        let a = lhs.value();
        let b = rhs.value();
        let sb = sign_bit_of(lhs.ty);
        // Flipping the sign bit turns the signed order into the unsigned one.
        let sa = a ^ sb;
        let sb2 = b ^ sb;
        proof {
            lemma_flip_sign(lhs.ty, a);
            lemma_flip_sign(lhs.ty, b);
        }
        match cmp {
            ComparisonType::Equal => a == b,
            ComparisonType::NotEqual => a != b,
            ComparisonType::UnsignedGreater => a > b,
            ComparisonType::UnsignedGreaterOrEqual => a >= b,
            ComparisonType::UnsignedLess => a < b,
            ComparisonType::UnsignedLessOrEqual => a <= b,
            ComparisonType::SignedGreater => sa > sb2,
            ComparisonType::SignedGreaterOrEqual => sa >= sb2,
            ComparisonType::SignedLess => sa < sb2,
            ComparisonType::SignedLessOrEqual => sa <= sb2,
        }
    }

    fn zext(&mut self, val: Value, to: IntType) -> (r: Value) {
        let a = val.value();
        Value { ty: to, bits: a }
    }

    fn sext(&mut self, val: Value, to: IntType) -> (r: Value) {
        let a = val.value();
        let x = if a & sign_bit_of(val.ty) != 0 {
            a | (to.mask() & !val.ty.mask())
        } else {
            a
        };
        proof {
            lemma_sign_bit(val.ty, a);
            lemma_sext_bits(val.ty, to, a);
        }
        Value { ty: to, bits: x }
    }

    fn trunc(&mut self, val: Value, to: IntType) -> (r: Value) {
        let x = val.value() & to.mask();
        proof {
            lemma_mask_fits(to, val.bits);
        }
        Value { ty: to, bits: x }
    }

    fn ifelse(&mut self, cond: bool, iftrue: Arm<Value>, iffalse: Arm<Value>) -> (r: ControlFlow) {
        let left = iftrue.arm_flow();
        let right = iffalse.arm_flow();
        let chosen = if cond {
            iftrue
        } else {
            iffalse
        };
        match chosen {
            Arm::Continue => {},
            Arm::StoreRegister(reg, v) => {
                self.store_register(reg, v);
            },
            Arm::Jump(t) => {
                self.exit = Some(t);
            },
        }
        join(left, right)
    }

    fn exit_to(&mut self, target: Value) {
        self.exit = Some(target.value() as u32);
    }
}

} // verus!
