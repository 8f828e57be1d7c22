use vstd::prelude::*;
use crate::backend::{BoolValue, Builder, IntValue};
use crate::flags::{alu_width, store_sub_flags, with_sub_flags};
use crate::flow::Arm;
use crate::lower::{keep_flag_where, lemma_operand_fits, lemma_with_reg_same};
use crate::flow::join_spec;
use crate::state::{lemma_load_le_bound, load_le, pow256, width_bytes, wrap, MachineState};
use crate::types::{ComparisonType, ControlFlow, Flag, IntType, Operand, Register};

verus! {

/// The repeat prefixes of a string instruction.
#[derive(Debug, Clone, Copy, PartialEq, Eq, Structural)]
pub enum RepPrefix {
    NoRep,
    Repe,
    Repne,
}

/// AL, AX or EAX, by width.
pub open spec fn accumulator(ty: IntType) -> Register {
    match ty {
        IntType::I8 => Register::AL,
        IntType::I16 => Register::AX,
        _ => Register::EAX,
    }
}

pub fn accumulator_of(ty: IntType) -> (r: Register)
    ensures
        r == accumulator(ty),
{
    match ty {
        IntType::I8 => Register::AL,
        IntType::I16 => Register::AX,
        _ => Register::EAX,
    }
}

#[verifier::opaque]
/// One SCAS: the accumulator is compared with the element at EDI as by SUB, and EDI moves one
/// element forward, or backward where DF is set.
pub open spec fn scas_step(s: MachineState, ty: IntType) -> MachineState {
    let a = s.reg(accumulator(ty));
    let edi = s.reg(Register::EDI);
    let m = load_le(s.mem, edi as u32, width_bytes(ty)) as u64;
    let n = width_bytes(ty) as int;
    let moved = if s.flag(Flag::Direction) {
        wrap(IntType::I32, edi - n)
    } else {
        wrap(IntType::I32, edi + n)
    };
    with_sub_flags(s.with_reg(Register::EDI, moved), ty, a, m)
}

/// What a SCAS with a prefix does: with ECX zero, nothing; else ECX is decremented after one
/// step, and control goes back to the instruction at `own` while ECX is not zero and ZF is set
/// (REPE) or clear (REPNE).
pub open spec fn scas_spec(s: MachineState, ty: IntType, prefix: RepPrefix, own: u32) -> MachineState {
    match prefix {
        RepPrefix::NoRep => scas_step(s, ty),
        _ => if s.reg(Register::ECX) == 0 {
            s
        } else {
            let s1 = scas_step(s, ty).with_reg(
                Register::ECX,
                wrap(IntType::I32, s.reg(Register::ECX) - 1),
            );
            let again = s1.reg(Register::ECX) != 0 && if prefix == RepPrefix::Repe {
                s1.flag(Flag::Zero)
            } else {
                !s1.flag(Flag::Zero)
            };
            if again {
                s1.with_exit(own)
            } else {
                s1
            }
        },
    }
}

/// Emits one SCAS step.
pub fn lower_scas_step<B: Builder>(b: &mut B, ty: IntType)
    requires
        old(b).state().well_formed(),
        alu_width(ty),
    ensures
        final(b).state() == scas_step(old(b).state(), ty),
{
    reveal(scas_step);
    let ghost s0 = b.state();
    let acc = accumulator_of(ty);
    proof {
        lemma_operand_fits(s0, Operand::Register(acc));
        lemma_operand_fits(s0, Operand::Register(Register::EDI));
    }
    let a = b.load_register(acc);
    let edi = b.load_register(Register::EDI);
    let m = b.load_memory(ty, edi);
    proof {
        lemma_load_le_bound(s0.mem, edi.bits() as u32, width_bytes(ty));
        reveal_with_fuel(pow256, 5);
    }
    let df = b.load_flag(Flag::Direction);
    let size: u32 = (ty.bit_width() / 8) as u32;
    let up = b.make_u32(size);
    let down = b.make_u32(0u32.wrapping_sub(size));
    let step = b.select(df, down, up);
    let moved = b.add(edi, step);
    proof {
        let n = size as int;
        assert(0u32.wrapping_sub(size) as int == 0x1_0000_0000 - n);
        vstd::arithmetic::div_mod::lemma_mod_add_multiples_vanish(edi.bits() - n, 0x1_0000_0000);
    }
    b.store_register(Register::EDI, moved);
    let r = b.sub(a, m);
    store_sub_flags(b, a, m, r);
}

/// A SCAS step writes EDI and the six arithmetic flags, and nothing else.
proof fn lemma_scas_step_frame(s: MachineState, ty: IntType)
    requires
        s.well_formed(),
    ensures
        scas_step(s, ty).well_formed(),
        scas_step(s, ty).mem == s.mem,
        scas_step(s, ty).exit == s.exit,
        forall|i: int| 0 <= i < 8 && i != 7 ==> scas_step(s, ty).regs[i] == s.regs[i],
        scas_step(s, ty).flags[6] == s.flags[6],
        scas_step(s, ty).flags[7] == s.flags[7],
{
    reveal(scas_step);
}

/// Emits a string compare with its prefix. With a prefix the instruction does one step per
/// execution and branches back to itself while it has to go on; with ECX zero, every write it
/// makes is of the value already there.
pub fn lower_scas<B: Builder>(b: &mut B, ty: IntType, prefix: RepPrefix, own: u32) -> (r:
    ControlFlow)
    requires
        old(b).state().well_formed(),
        alu_width(ty),
    ensures
        final(b).state() == scas_spec(old(b).state(), ty, prefix, own),
        prefix == RepPrefix::NoRep ==> r == ControlFlow::NextInstruction,
        prefix != RepPrefix::NoRep ==> join_spec(
            ControlFlow::DirectJump(own),
            ControlFlow::NextInstruction,
            r,
        ),
{
    match prefix {
        RepPrefix::NoRep => {
            lower_scas_step(b, ty);
            ControlFlow::NextInstruction
        },
        RepPrefix::Repe => lower_rep_scas(b, ty, true, own),
        RepPrefix::Repne => lower_rep_scas(b, ty, false, own),
    }
}

fn lower_rep_scas<B: Builder>(b: &mut B, ty: IntType, while_equal: bool, own: u32) -> (r:
    ControlFlow)
    requires
        old(b).state().well_formed(),
        alu_width(ty),
    ensures
        final(b).state() == scas_spec(
            old(b).state(),
            ty,
            if while_equal {
                RepPrefix::Repe
            } else {
                RepPrefix::Repne
            },
            own,
        ),
        join_spec(ControlFlow::DirectJump(own), ControlFlow::NextInstruction, r),
{
    let ghost s0 = b.state();
    let ecx = b.load_register(Register::ECX);
    let zero32 = b.make_u32(0);
    let active = b.icmp(ComparisonType::NotEqual, ecx, zero32);
    predicated_scas_step(b, ty, active);
    proof {
        lemma_scas_step_frame(s0, ty);
    }
    let one = b.make_u32(1);
    let dec = b.sub(ecx, one);
    let ecx_f = b.select(active, dec, ecx);
    b.store_register(Register::ECX, ecx_f);
    proof {
        if !active.truth() {
            lemma_with_reg_same(s0, Register::ECX);
        }
    }
    let zf = b.load_flag(Flag::Zero);
    let cond = if while_equal {
        zf
    } else {
        b.bool_neg(zf)
    };
    let nz = b.icmp(ComparisonType::NotEqual, ecx_f, zero32);
    let again = b.bool_and(active, nz);
    let again = b.bool_and(again, cond);
    b.ifelse(again, Arm::Jump(own), Arm::Continue)
}

/// One SCAS step where `active` holds; elsewhere the state is left as it was.
fn predicated_scas_step<B: Builder>(b: &mut B, ty: IntType, active: B::BoolValue)
    requires
        old(b).state().well_formed(),
        alu_width(ty),
    ensures
        final(b).state() == if active.truth() {
            scas_step(old(b).state(), ty)
        } else {
            old(b).state()
        },
{
    let ghost s0 = b.state();
    let edi0 = b.load_register(Register::EDI);
    let cf0 = b.load_flag(Flag::Carry);
    let pf0 = b.load_flag(Flag::Parity);
    let af0 = b.load_flag(Flag::AuxiliaryCarry);
    let zf0 = b.load_flag(Flag::Zero);
    let sf0 = b.load_flag(Flag::Sign);
    let of0 = b.load_flag(Flag::Overflow);
    let inactive = b.bool_neg(active);
    lower_scas_step(b, ty);
    proof {
        lemma_scas_step_frame(s0, ty);
    }
    let ghost s1 = b.state();
    let edi_now = b.load_register(Register::EDI);
    let edi_f = b.select(active, edi_now, edi0);
    b.store_register(Register::EDI, edi_f);
    keep_flag_where(b, inactive, Flag::Carry, cf0);
    keep_flag_where(b, inactive, Flag::Parity, pf0);
    keep_flag_where(b, inactive, Flag::AuxiliaryCarry, af0);
    keep_flag_where(b, inactive, Flag::Zero, zf0);
    keep_flag_where(b, inactive, Flag::Sign, sf0);
    keep_flag_where(b, inactive, Flag::Overflow, of0);
    proof {
        if active.truth() {
            lemma_with_reg_same(s1, Register::EDI);
            assert(b.state().flags =~= s1.flags);
        } else {
            assert(b.state().regs =~= s0.regs);
            assert(b.state().flags =~= s0.flags);
        }
    }
}

} // verus!
