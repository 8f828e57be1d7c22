use vstd::prelude::*;
use crate::backend::{operand_ok, operand_value, store_operand_spec, BoolValue, Builder, IntValue};
use crate::flow::{join_spec, Arm};
use crate::lower::{lemma_operand_fits, load_source, select_bool, source_ok, source_value};
use crate::state::{fits, load_le, store_le, wrap, MachineState};
use crate::types::{ControlFlow, Flag, IntType, Operand, Register};

verus! {

/// The state after the 32-bit value `v` is pushed.
pub open spec fn push_spec(s: MachineState, v: u64) -> MachineState {
    let sp = wrap(IntType::I32, s.reg(Register::ESP) - 4);
    MachineState { mem: store_le(s.mem, sp as u32, v as nat, 4), ..s.with_reg(Register::ESP, sp) }
}

/// The 32-bit value on top of the stack.
pub open spec fn top_of_stack(s: MachineState) -> u64 {
    load_le(s.mem, s.reg(Register::ESP) as u32, 4) as u64
}

/// The state after the top of the stack is dropped.
pub open spec fn drop_top(s: MachineState) -> MachineState {
    s.with_reg(Register::ESP, wrap(IntType::I32, s.reg(Register::ESP) + 4))
}

/// Emits a push of a 32-bit value.
pub fn push_value<B: Builder>(b: &mut B, v: B::IntValue)
    requires
        old(b).state().well_formed(),
        v.width() == IntType::I32,
    ensures
        final(b).state() == push_spec(old(b).state(), v.bits()),
{
    let esp = b.load_register(Register::ESP);
    let four = b.make_u32(4);
    let sp = b.sub(esp, four);
    b.store_register(Register::ESP, sp);
    proof {
        crate::state::lemma_wrap_fits(IntType::I32, esp.bits() - 4);
    }
    b.store_memory(sp, v);
}

/// Emits a pop: the value on top of the stack, which is dropped.
pub fn pop_value<B: Builder>(b: &mut B) -> (r: B::IntValue)
    requires
        old(b).state().well_formed(),
    ensures
        final(b).state() == drop_top(old(b).state()),
        r.width() == IntType::I32,
        r.bits() == top_of_stack(old(b).state()),
        fits(IntType::I32, r.bits()),
{
    let ghost s0 = b.state();
    let esp = b.load_register(Register::ESP);
    proof {
        lemma_operand_fits(s0, Operand::Register(Register::ESP));
    }
    let v = b.load_memory(IntType::I32, esp);
    proof {
        crate::state::lemma_load_le_bound(s0.mem, esp.bits() as u32, 4);
        reveal_with_fuel(crate::state::pow256, 5);
    }
    let four = b.make_u32(4);
    let sp = b.add(esp, four);
    b.store_register(Register::ESP, sp);
    v
}

/// A 32-bit operand: a register or memory operand of 32 bits.
pub open spec fn operand32_ok(op: Operand) -> bool {
    &&& operand_ok(op)
    &&& (op is Register || op is Memory)
    &&& op.width() == IntType::I32
}

pub open spec fn push_operand_spec(s: MachineState, src: Operand) -> MachineState {
    push_spec(s, source_value(s, src, IntType::I32))
}

pub fn lower_push<B: Builder>(b: &mut B, src: Operand)
    requires
        old(b).state().well_formed(),
        source_ok(src, IntType::I32),
    ensures
        final(b).state() == push_operand_spec(old(b).state(), src),
{
    let v = load_source(b, src, IntType::I32);
    push_value(b, v);
}

/// What `pop dst` does: the address of a memory destination is taken after ESP moves.
pub open spec fn pop_spec(s: MachineState, dst: Operand) -> MachineState {
    store_operand_spec(drop_top(s), dst, top_of_stack(s))
}

pub fn lower_pop<B: Builder>(b: &mut B, dst: Operand)
    requires
        old(b).state().well_formed(),
        operand32_ok(dst),
    ensures
        final(b).state() == pop_spec(old(b).state(), dst),
{
    let v = pop_value(b);
    b.store_operand(dst, v);
}

/// What `leave` does: ESP takes EBP, then EBP is popped.
pub open spec fn leave_spec(s: MachineState) -> MachineState {
    let s1 = s.with_reg(Register::ESP, s.reg(Register::EBP));
    drop_top(s1).with_reg(Register::EBP, top_of_stack(s1))
}

pub fn lower_leave<B: Builder>(b: &mut B)
    requires
        old(b).state().well_formed(),
    ensures
        final(b).state() == leave_spec(old(b).state()),
{
    let ebp = b.load_register(Register::EBP);
    b.store_register(Register::ESP, ebp);
    let v = pop_value(b);
    b.store_register(Register::EBP, v);
}

/// What `enter size, 0` does: EBP is pushed and takes the new ESP, and `size` bytes are
/// reserved below it.
pub open spec fn enter_spec(s: MachineState, size: u16) -> MachineState {
    let s1 = push_spec(s, s.reg(Register::EBP));
    let frame = s1.reg(Register::ESP);
    s1.with_reg(Register::EBP, frame).with_reg(Register::ESP, wrap(IntType::I32, frame - size))
}

pub fn lower_enter<B: Builder>(b: &mut B, size: u16)
    requires
        old(b).state().well_formed(),
    ensures
        final(b).state() == enter_spec(old(b).state(), size),
{
    let ebp = b.load_register(Register::EBP);
    push_value(b, ebp);
    let esp = b.load_register(Register::ESP);
    b.store_register(Register::EBP, esp);
    let reserved = b.make_u32(size as u32);
    let below = b.sub(esp, reserved);
    b.store_register(Register::ESP, below);
}

/// Where a jump or a call goes: an absolute address given in the instruction, or one read
/// from a 32-bit operand.
pub open spec fn target_ok(target: Operand) -> bool {
    target is Immediate32 || operand32_ok(target)
}

/// What `call target` does to the state; `next` is the address of the next instruction.
pub open spec fn call_spec(s: MachineState, target: Operand, next: u32) -> MachineState {
    match target {
        Operand::Immediate32(_) => push_spec(s, next as u64),
        _ => push_spec(s, next as u64).with_exit(operand_value(s, target) as u32),
    }
}

pub open spec fn call_flow(target: Operand) -> ControlFlow {
    match target {
        Operand::Immediate32(t) => ControlFlow::DirectJump(t),
        _ => ControlFlow::IndirectJump,
    }
}

pub fn lower_call<B: Builder>(b: &mut B, target: Operand, next: u32) -> (r: ControlFlow)
    requires
        old(b).state().well_formed(),
        target_ok(target),
    ensures
        final(b).state() == call_spec(old(b).state(), target, next),
        r == call_flow(target),
{
    match target {
        Operand::Immediate32(t) => {
            let ret = b.make_u32(next);
            push_value(b, ret);
            ControlFlow::DirectJump(t)
        },
        _ => {
            let dest = b.load_operand(target);
            let ret = b.make_u32(next);
            push_value(b, ret);
            b.exit_to(dest);
            ControlFlow::IndirectJump
        },
    }
}

/// What `ret` does: the return address is popped and control goes there.
pub open spec fn ret_spec(s: MachineState) -> MachineState {
    drop_top(s).with_exit(top_of_stack(s) as u32)
}

pub fn lower_ret<B: Builder>(b: &mut B) -> (r: ControlFlow)
    requires
        old(b).state().well_formed(),
    ensures
        final(b).state() == ret_spec(old(b).state()),
        r == ControlFlow::Return,
{
    let v = pop_value(b);
    b.exit_to(v);
    ControlFlow::Return
}

/// What `jmp target` does to the state: nothing for a direct jump.
pub open spec fn jmp_spec(s: MachineState, target: Operand) -> MachineState {
    match target {
        Operand::Immediate32(_) => s,
        _ => s.with_exit(operand_value(s, target) as u32),
    }
}

pub fn lower_jmp<B: Builder>(b: &mut B, target: Operand) -> (r: ControlFlow)
    requires
        old(b).state().well_formed(),
        target_ok(target),
    ensures
        final(b).state() == jmp_spec(old(b).state(), target),
        r == call_flow(target),
{
    match target {
        Operand::Immediate32(t) => ControlFlow::DirectJump(t),
        _ => {
            let dest = b.load_operand(target);
            b.exit_to(dest);
            ControlFlow::IndirectJump
        },
    }
}

/// The conditions of Jcc and CMOVcc.
#[derive(Debug, Clone, Copy, PartialEq, Eq, Structural)]
pub enum Condition {
    Overflow,
    NotOverflow,
    Below,
    AboveOrEqual,
    Equal,
    NotEqual,
    BelowOrEqual,
    Above,
    Sign,
    NotSign,
    Parity,
    NotParity,
    Less,
    GreaterOrEqual,
    LessOrEqual,
    Greater,
}

/// Whether a condition holds in a state.
pub open spec fn condition_holds(s: MachineState, cc: Condition) -> bool {
    let cf = s.flag(Flag::Carry);
    let zf = s.flag(Flag::Zero);
    let sf = s.flag(Flag::Sign);
    let of = s.flag(Flag::Overflow);
    let pf = s.flag(Flag::Parity);
    match cc {
        Condition::Overflow => of,
        Condition::NotOverflow => !of,
        Condition::Below => cf,
        Condition::AboveOrEqual => !cf,
        Condition::Equal => zf,
        Condition::NotEqual => !zf,
        Condition::BelowOrEqual => cf || zf,
        Condition::Above => !cf && !zf,
        Condition::Sign => sf,
        Condition::NotSign => !sf,
        Condition::Parity => pf,
        Condition::NotParity => !pf,
        Condition::Less => sf != of,
        Condition::GreaterOrEqual => sf == of,
        Condition::LessOrEqual => zf || sf != of,
        Condition::Greater => !zf && sf == of,
    }
}

/// Emits the test of a condition on the flags.
pub fn emit_condition<B: Builder>(b: &mut B, cc: Condition) -> (r: B::BoolValue)
    requires
        old(b).state().well_formed(),
    ensures
        final(b).state() == old(b).state(),
        r.truth() == condition_holds(old(b).state(), cc),
{
    match cc {
        Condition::Overflow => b.load_flag(Flag::Overflow),
        Condition::NotOverflow => {
            let f = b.load_flag(Flag::Overflow);
            b.bool_neg(f)
        },
        Condition::Below => b.load_flag(Flag::Carry),
        Condition::AboveOrEqual => {
            let f = b.load_flag(Flag::Carry);
            b.bool_neg(f)
        },
        Condition::Equal => b.load_flag(Flag::Zero),
        Condition::NotEqual => {
            let f = b.load_flag(Flag::Zero);
            b.bool_neg(f)
        },
        Condition::BelowOrEqual => {
            let c = b.load_flag(Flag::Carry);
            let z = b.load_flag(Flag::Zero);
            b.bool_or(c, z)
        },
        Condition::Above => {
            let c = b.load_flag(Flag::Carry);
            let z = b.load_flag(Flag::Zero);
            let e = b.bool_or(c, z);
            b.bool_neg(e)
        },
        Condition::Sign => b.load_flag(Flag::Sign),
        Condition::NotSign => {
            let f = b.load_flag(Flag::Sign);
            b.bool_neg(f)
        },
        Condition::Parity => b.load_flag(Flag::Parity),
        Condition::NotParity => {
            let f = b.load_flag(Flag::Parity);
            b.bool_neg(f)
        },
        Condition::Less => sign_differs(b),
        Condition::GreaterOrEqual => {
            let d = sign_differs(b);
            b.bool_neg(d)
        },
        Condition::LessOrEqual => {
            let z = b.load_flag(Flag::Zero);
            let d = sign_differs(b);
            b.bool_or(z, d)
        },
        Condition::Greater => {
            let z = b.load_flag(Flag::Zero);
            let d = sign_differs(b);
            let e = b.bool_or(z, d);
            b.bool_neg(e)
        },
    }
}

/// Emits `SF != OF`.
fn sign_differs<B: Builder>(b: &mut B) -> (r: B::BoolValue)
    requires
        old(b).state().well_formed(),
    ensures
        final(b).state() == old(b).state(),
        r.truth() == (old(b).state().flag(Flag::Sign) != old(b).state().flag(Flag::Overflow)),
{
    let sf = b.load_flag(Flag::Sign);
    let of = b.load_flag(Flag::Overflow);
    let nof = b.bool_neg(of);
    select_bool(b, sf, nof, of)
}

/// What `jcc target` does: where the condition holds, control leaves for `target`.
pub open spec fn jcc_spec(s: MachineState, cc: Condition, target: u32) -> MachineState {
    if condition_holds(s, cc) {
        s.with_exit(target)
    } else {
        s
    }
}

pub fn lower_jcc<B: Builder>(b: &mut B, cc: Condition, target: u32, next: u32) -> (r: ControlFlow)
    requires
        old(b).state().well_formed(),
    ensures
        final(b).state() == jcc_spec(old(b).state(), cc, target),
        r == ControlFlow::ConditionalBranch(target, next),
{
    let c = emit_condition(b, cc);
    let _ = b.ifelse(c, Arm::Jump(target), Arm::Continue);
    ControlFlow::ConditionalBranch(target, next)
}

/// What `cmovcc dst, src` does: where the condition holds, `dst` receives `src`.
pub open spec fn cmov_spec(s: MachineState, cc: Condition, dst: Register, src: Operand) -> MachineState {
    if condition_holds(s, cc) {
        s.with_reg(dst, operand_value(s, src))
    } else {
        s
    }
}

/// A conditional move: a 16- or 32-bit register, and a source of the same width.
pub open spec fn cmov_ok(dst: Register, src: Operand) -> bool {
    &&& (dst.width() == IntType::I16 || dst.width() == IntType::I32)
    &&& operand_ok(src)
    &&& (src is Register || src is Memory)
    &&& src.width() == dst.width()
}

/// Emits `cmovcc dst, src` as a branch whose taken arm writes `dst` and whose other arm does
/// nothing; both fall through.
pub fn lower_cmov<B: Builder>(b: &mut B, cc: Condition, dst: Register, src: Operand) -> (r:
    ControlFlow)
    requires
        old(b).state().well_formed(),
        cmov_ok(dst, src),
    ensures
        final(b).state() == cmov_spec(old(b).state(), cc, dst, src),
        join_spec(ControlFlow::NextInstruction, ControlFlow::NextInstruction, r),
{
    proof {
        lemma_operand_fits(b.state(), src);
    }
    let v = b.load_operand(src);
    let c = emit_condition(b, cc);
    b.ifelse(c, Arm::StoreRegister(dst, v), Arm::Continue)
}

} // verus!
