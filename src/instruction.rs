use vstd::prelude::*;
use crate::backend::{memory_operand_ok, operand_ok, Builder};
use crate::control::{
    call_flow,
    call_spec,
    cmov_ok,
    cmov_spec,
    enter_spec,
    jcc_spec,
    lower_enter,
    jmp_spec,
    leave_spec,
    lower_call,
    lower_cmov,
    lower_jcc,
    lower_jmp,
    lower_leave,
    lower_pop,
    lower_push,
    lower_ret,
    operand32_ok,
    pop_spec,
    push_operand_spec,
    ret_spec,
    target_ok,
    Condition,
};
use crate::flags::alu_width;
use crate::flow::join_spec;
use crate::lower::{
    alu_spec,
    dest_ok,
    div_defined,
    div_spec,
    imul_spec,
    lea_spec,
    lower_alu,
    lower_div,
    lower_imul,
    lower_lea,
    lower_mov,
    lower_mul,
    lower_shift,
    lower_unary,
    mov_spec,
    mul_spec,
    shift_ok,
    shift_spec,
    source_ok,
    unary_spec,
    AluOp,
    ShiftOp,
    UnaryOp,
};
use crate::state::MachineState;
use crate::string::{lower_scas, scas_spec, RepPrefix};
use crate::types::{ControlFlow, IntType, MemoryOperand, Operand, Register};

verus! {

/// The instructions the core lowers.
#[derive(Debug, Clone, Copy, PartialEq, Eq, Structural)]
pub enum Mnemonic {
    Mov,
    Lea,
    Push,
    Pop,
    Leave,
    Enter,
    Add,
    Sub,
    Cmp,
    And,
    Or,
    Xor,
    Test,
    Inc,
    Dec,
    Neg,
    Not,
    Shl,
    Shr,
    Sar,
    Imul,
    Mul,
    Div,
    Jmp,
    Call,
    Ret,
    Jcc(Condition),
    Cmovcc(Condition),
    Scas(IntType, RepPrefix),
}

/// A decoded instruction: its mnemonic and operands, its own address and the address of the
/// instruction after it.
#[derive(Debug, Clone)]
pub struct Instruction {
    pub mnemonic: Mnemonic,
    pub operands: Vec<Operand>,
    pub address: u32,
    pub next_address: u32,
}

/// Why an instruction cannot be lowered.
#[derive(Debug, Clone, Copy, PartialEq, Eq, Structural)]
pub enum LowerError {
    /// The mnemonic takes another number of operands.
    OperandCount,
    /// An operand is outside what the core supports for the mnemonic.
    UnsupportedOperand,
}

/// Number of operands each mnemonic takes.
pub open spec fn arity(m: Mnemonic) -> nat {
    match m {
        Mnemonic::Leave | Mnemonic::Ret | Mnemonic::Scas(_, _) => 0,
        Mnemonic::Push | Mnemonic::Pop | Mnemonic::Inc | Mnemonic::Dec | Mnemonic::Neg
        | Mnemonic::Not | Mnemonic::Mul | Mnemonic::Div | Mnemonic::Jmp | Mnemonic::Call
        | Mnemonic::Jcc(_) => 1,
        _ => 2,
    }
}

pub open spec fn alu_op(m: Mnemonic) -> AluOp {
    match m {
        Mnemonic::Add => AluOp::Add,
        Mnemonic::Sub => AluOp::Sub,
        Mnemonic::Cmp => AluOp::Cmp,
        Mnemonic::And => AluOp::And,
        Mnemonic::Or => AluOp::Or,
        Mnemonic::Xor => AluOp::Xor,
        _ => AluOp::Test,
    }
}

pub open spec fn unary_op(m: Mnemonic) -> UnaryOp {
    match m {
        Mnemonic::Inc => UnaryOp::Inc,
        Mnemonic::Dec => UnaryOp::Dec,
        Mnemonic::Neg => UnaryOp::Neg,
        _ => UnaryOp::Not,
    }
}

pub open spec fn shift_op(m: Mnemonic) -> ShiftOp {
    match m {
        Mnemonic::Shl => ShiftOp::Shl,
        Mnemonic::Shr => ShiftOp::Shr,
        _ => ShiftOp::Sar,
    }
}

/// The operands suit the mnemonic (their number aside).
pub open spec fn operands_ok(m: Mnemonic, ops: Seq<Operand>) -> bool {
    match m {
        Mnemonic::Mov | Mnemonic::Add | Mnemonic::Sub | Mnemonic::Cmp | Mnemonic::And
        | Mnemonic::Or | Mnemonic::Xor | Mnemonic::Test => dest_ok(ops[0]) && source_ok(
            ops[1],
            ops[0].width(),
        ),
        Mnemonic::Lea => ops[0] is Register && ops[0].width() == IntType::I32 && ops[1] is Memory
            && memory_operand_ok(ops[1]->Memory_0),
        Mnemonic::Push => source_ok(ops[0], IntType::I32),
        Mnemonic::Pop | Mnemonic::Mul | Mnemonic::Div => operand32_ok(ops[0]),
        Mnemonic::Inc | Mnemonic::Dec | Mnemonic::Neg | Mnemonic::Not => dest_ok(ops[0]),
        Mnemonic::Shl | Mnemonic::Shr | Mnemonic::Sar => shift_ok(ops[0], ops[1]),
        Mnemonic::Imul => ops[0] is Register && (ops[0].width() == IntType::I16 || ops[0].width()
            == IntType::I32) && source_ok(ops[1], ops[0].width()),
        Mnemonic::Jmp | Mnemonic::Call => target_ok(ops[0]),
        Mnemonic::Jcc(_) => ops[0] is Immediate32,
        Mnemonic::Cmovcc(_) => ops[0] is Register && cmov_ok(ops[0]->Register_0, ops[1]),
        Mnemonic::Scas(ty, _) => alu_width(ty),
        Mnemonic::Enter => ops[0] is Immediate16 && ops[1] == Operand::Immediate8(0),
        Mnemonic::Leave | Mnemonic::Ret => true,
    }
}

pub open spec fn instruction_ok(i: Instruction) -> bool {
    i.operands@.len() == arity(i.mnemonic) && operands_ok(i.mnemonic, i.operands@)
}

/// What an instruction does to the guest state.
#[verifier::opaque]
pub open spec fn step_spec(s: MachineState, i: Instruction) -> MachineState {
    let ops = i.operands@;
    match i.mnemonic {
        Mnemonic::Mov => mov_spec(s, ops[0], ops[1]),
        Mnemonic::Lea => lea_spec(s, ops[0]->Register_0, ops[1]->Memory_0),
        Mnemonic::Push => push_operand_spec(s, ops[0]),
        Mnemonic::Pop => pop_spec(s, ops[0]),
        Mnemonic::Leave => leave_spec(s),
        Mnemonic::Enter => enter_spec(s, ops[0]->Immediate16_0),
        Mnemonic::Add | Mnemonic::Sub | Mnemonic::Cmp | Mnemonic::And | Mnemonic::Or
        | Mnemonic::Xor | Mnemonic::Test => alu_spec(s, alu_op(i.mnemonic), ops[0], ops[1]),
        Mnemonic::Inc | Mnemonic::Dec | Mnemonic::Neg | Mnemonic::Not => unary_spec(
            s,
            unary_op(i.mnemonic),
            ops[0],
        ),
        Mnemonic::Shl | Mnemonic::Shr | Mnemonic::Sar => shift_spec(
            s,
            shift_op(i.mnemonic),
            ops[0],
            ops[1],
        ),
        Mnemonic::Imul => imul_spec(s, ops[0]->Register_0, ops[1]),
        Mnemonic::Mul => mul_spec(s, ops[0]),
        Mnemonic::Div => div_spec(s, ops[0]),
        Mnemonic::Jmp => jmp_spec(s, ops[0]),
        Mnemonic::Call => call_spec(s, ops[0], i.next_address),
        Mnemonic::Ret => ret_spec(s),
        Mnemonic::Jcc(cc) => jcc_spec(s, cc, ops[0]->Immediate32_0),
        Mnemonic::Cmovcc(cc) => cmov_spec(s, cc, ops[0]->Register_0, ops[1]),
        Mnemonic::Scas(ty, prefix) => scas_spec(s, ty, prefix, i.address),
    }
}

/// The flow an instruction yields.
pub open spec fn flow_ok(i: Instruction, r: ControlFlow) -> bool {
    let ops = i.operands@;
    match i.mnemonic {
        Mnemonic::Jmp | Mnemonic::Call => r == call_flow(ops[0]),
        Mnemonic::Ret => r == ControlFlow::Return,
        Mnemonic::Jcc(_) => r == ControlFlow::ConditionalBranch(
            ops[0]->Immediate32_0,
            i.next_address,
        ),
        Mnemonic::Cmovcc(_) => join_spec(
            ControlFlow::NextInstruction,
            ControlFlow::NextInstruction,
            r,
        ),
        Mnemonic::Scas(_, RepPrefix::Repe) | Mnemonic::Scas(_, RepPrefix::Repne) => join_spec(
            ControlFlow::DirectJump(i.address),
            ControlFlow::NextInstruction,
            r,
        ),
        _ => r == ControlFlow::NextInstruction,
    }
}

/// The state an instruction may be run in: a DIV must raise no divide error.
pub open spec fn runnable(s: MachineState, i: Instruction) -> bool {
    instruction_ok(i) && i.mnemonic == Mnemonic::Div ==> div_defined(s, i.operands@[0])
}

pub fn memory_operand_supported(m: &MemoryOperand) -> (r: bool)
    ensures
        r == memory_operand_ok(*m),
{
    let base_ok = match m.base {
        Some(r) => r.size() == IntType::I32,
        None => true,
    };
    let index_ok = match m.index {
        Some(r) => r.size() == IntType::I32,
        None => true,
    };
    m.segment.is_none() && m.size.is_some() && (m.scale == 1 || m.scale == 2 || m.scale == 4
        || m.scale == 8) && -0x8000_0000 <= m.displacement && m.displacement < 0x8000_0000
        && base_ok && index_ok
}

pub fn operand_supported(op: &Operand) -> (r: bool)
    ensures
        r == operand_ok(*op),
{
    match op {
        Operand::FarBranch(_, _) => false,
        Operand::Memory(m) => memory_operand_supported(m),
        _ => true,
    }
}

fn alu_width_of(ty: IntType) -> (r: bool)
    ensures
        r == alu_width(ty),
{
    ty == IntType::I8 || ty == IntType::I16 || ty == IntType::I32
}

fn is_immediate_operand(op: &Operand) -> (r: bool)
    ensures
        r == crate::lower::is_immediate(*op),
{
    match op {
        Operand::Immediate8(_) | Operand::Immediate16(_) | Operand::Immediate32(_)
        | Operand::Immediate64(_) => true,
        _ => false,
    }
}

fn is_dest(op: &Operand) -> (r: bool)
    ensures
        r == dest_ok(*op),
{
    operand_supported(op) && match op {
        Operand::Register(_) | Operand::Memory(_) => alu_width_of(op.size()),
        _ => false,
    }
}

fn is_source(op: &Operand, ty: IntType) -> (r: bool)
    ensures
        r == source_ok(*op, ty),
{
    operand_supported(op) && (op.size() == ty || (is_immediate_operand(op)
        && op.size().bit_width() < ty.bit_width()))
}

fn is_operand32(op: &Operand) -> (r: bool)
    ensures
        r == operand32_ok(*op),
{
    operand_supported(op) && match op {
        Operand::Register(_) | Operand::Memory(_) => op.size() == IntType::I32,
        _ => false,
    }
}

fn is_target(op: &Operand) -> (r: bool)
    ensures
        r == target_ok(*op),
{
    match op {
        Operand::Immediate32(_) => true,
        _ => is_operand32(op),
    }
}

pub fn arity_of(m: Mnemonic) -> (r: usize)
    ensures
        r as nat == arity(m),
{
    match m {
        Mnemonic::Leave | Mnemonic::Ret | Mnemonic::Scas(_, _) => 0,
        Mnemonic::Push | Mnemonic::Pop | Mnemonic::Inc | Mnemonic::Dec | Mnemonic::Neg
        | Mnemonic::Not | Mnemonic::Mul | Mnemonic::Div | Mnemonic::Jmp | Mnemonic::Call
        | Mnemonic::Jcc(_) => 1,
        _ => 2,
    }
}

/// Whether the operands suit the mnemonic; their number must be right.
pub fn operands_supported(m: Mnemonic, ops: &Vec<Operand>) -> (r: bool)
    requires
        ops@.len() == arity(m),
    ensures
        r == operands_ok(m, ops@),
{
    match m {
        Mnemonic::Mov | Mnemonic::Add | Mnemonic::Sub | Mnemonic::Cmp | Mnemonic::And
        | Mnemonic::Or | Mnemonic::Xor | Mnemonic::Test => is_dest(&ops[0]) && is_source(
            &ops[1],
            ops[0].size(),
        ),
        Mnemonic::Lea => match (ops[0], ops[1]) {
            (Operand::Register(r), Operand::Memory(mem)) => r.size() == IntType::I32
                && memory_operand_supported(&mem),
            _ => false,
        },
        Mnemonic::Push => is_source(&ops[0], IntType::I32),
        Mnemonic::Pop | Mnemonic::Mul | Mnemonic::Div => is_operand32(&ops[0]),
        Mnemonic::Inc | Mnemonic::Dec | Mnemonic::Neg | Mnemonic::Not => is_dest(&ops[0]),
        Mnemonic::Shl | Mnemonic::Shr | Mnemonic::Sar => match (ops[0], ops[1]) {
            (Operand::Register(r), Operand::Immediate8(_)) => alu_width_of(r.size()),
            (Operand::Register(r), Operand::Register(Register::CL)) => alu_width_of(r.size()),
            _ => false,
        },
        Mnemonic::Imul => match ops[0] {
            Operand::Register(r) => (r.size() == IntType::I16 || r.size() == IntType::I32)
                && is_source(&ops[1], r.size()),
            _ => false,
        },
        Mnemonic::Jmp | Mnemonic::Call => is_target(&ops[0]),
        Mnemonic::Jcc(_) => matches!(ops[0], Operand::Immediate32(_)),
        Mnemonic::Cmovcc(_) => match ops[0] {
            Operand::Register(r) => (r.size() == IntType::I16 || r.size() == IntType::I32)
                && operand_supported(&ops[1]) && match ops[1] {
                Operand::Register(_) | Operand::Memory(_) => ops[1].size() == r.size(),
                _ => false,
            },
            _ => false,
        },
        Mnemonic::Scas(ty, _) => alu_width_of(ty),
        Mnemonic::Enter => matches!(ops[0], Operand::Immediate16(_)) && matches!(
            ops[1],
            Operand::Immediate8(0)
        ),
        Mnemonic::Leave | Mnemonic::Ret => true,
    }
}

/// Lowers one decoded instruction through `b`. An instruction whose operands the core does not
/// support is refused, and nothing is emitted for it.
pub fn lower_instruction<B: Builder>(b: &mut B, instr: &Instruction) -> (r: Result<
    ControlFlow,
    LowerError,
>)
    requires
        old(b).state().well_formed(),
        runnable(old(b).state(), *instr),
    ensures
        r is Ok <==> instruction_ok(*instr),
        (r is Err && r->Err_0 == LowerError::OperandCount) <==> instr.operands@.len() != arity(
            instr.mnemonic,
        ),
        r is Ok ==> final(b).state() == step_spec(old(b).state(), *instr) && flow_ok(
            *instr,
            r->Ok_0,
        ),
        r is Err ==> final(b).state() == old(b).state(),
{
    reveal(step_spec);
    let m = instr.mnemonic;
    let ops = &instr.operands;
    if ops.len() != arity_of(m) {
        return Err(LowerError::OperandCount);
    }
    if !operands_supported(m, ops) {
        return Err(LowerError::UnsupportedOperand);
    }
    let flow = match m {
        Mnemonic::Mov => {
            lower_mov(b, ops[0], ops[1]);
            ControlFlow::NextInstruction
        },
        Mnemonic::Lea => {
            match (ops[0], ops[1]) {
                (Operand::Register(r), Operand::Memory(mem)) => lower_lea(b, r, mem),
                _ => {},
            }
            ControlFlow::NextInstruction
        },
        Mnemonic::Push => {
            lower_push(b, ops[0]);
            ControlFlow::NextInstruction
        },
        Mnemonic::Pop => {
            lower_pop(b, ops[0]);
            ControlFlow::NextInstruction
        },
        Mnemonic::Leave => {
            lower_leave(b);
            ControlFlow::NextInstruction
        },
        Mnemonic::Enter => {
            match ops[0] {
                Operand::Immediate16(size) => lower_enter(b, size),
                _ => {},
            }
            ControlFlow::NextInstruction
        },
        Mnemonic::Add => {
            lower_alu(b, AluOp::Add, ops[0], ops[1]);
            ControlFlow::NextInstruction
        },
        Mnemonic::Sub => {
            lower_alu(b, AluOp::Sub, ops[0], ops[1]);
            ControlFlow::NextInstruction
        },
        Mnemonic::Cmp => {
            lower_alu(b, AluOp::Cmp, ops[0], ops[1]);
            ControlFlow::NextInstruction
        },
        Mnemonic::And => {
            lower_alu(b, AluOp::And, ops[0], ops[1]);
            ControlFlow::NextInstruction
        },
        Mnemonic::Or => {
            lower_alu(b, AluOp::Or, ops[0], ops[1]);
            ControlFlow::NextInstruction
        },
        Mnemonic::Xor => {
            lower_alu(b, AluOp::Xor, ops[0], ops[1]);
            ControlFlow::NextInstruction
        },
        Mnemonic::Test => {
            lower_alu(b, AluOp::Test, ops[0], ops[1]);
            ControlFlow::NextInstruction
        },
        Mnemonic::Inc => {
            lower_unary(b, UnaryOp::Inc, ops[0]);
            ControlFlow::NextInstruction
        },
        Mnemonic::Dec => {
            lower_unary(b, UnaryOp::Dec, ops[0]);
            ControlFlow::NextInstruction
        },
        Mnemonic::Neg => {
            lower_unary(b, UnaryOp::Neg, ops[0]);
            ControlFlow::NextInstruction
        },
        Mnemonic::Not => {
            lower_unary(b, UnaryOp::Not, ops[0]);
            ControlFlow::NextInstruction
        },
        Mnemonic::Shl => {
            lower_shift(b, ShiftOp::Shl, ops[0], ops[1]);
            ControlFlow::NextInstruction
        },
        Mnemonic::Shr => {
            lower_shift(b, ShiftOp::Shr, ops[0], ops[1]);
            ControlFlow::NextInstruction
        },
        Mnemonic::Sar => {
            lower_shift(b, ShiftOp::Sar, ops[0], ops[1]);
            ControlFlow::NextInstruction
        },
        Mnemonic::Imul => {
            match ops[0] {
                Operand::Register(r) => lower_imul(b, r, ops[1]),
                _ => {},
            }
            ControlFlow::NextInstruction
        },
        Mnemonic::Mul => {
            lower_mul(b, ops[0]);
            ControlFlow::NextInstruction
        },
        Mnemonic::Div => {
            lower_div(b, ops[0]);
            ControlFlow::NextInstruction
        },
        Mnemonic::Jmp => lower_jmp(b, ops[0]),
        Mnemonic::Call => lower_call(b, ops[0], instr.next_address),
        Mnemonic::Ret => lower_ret(b),
        Mnemonic::Jcc(cc) => {
            let target = match ops[0] {
                Operand::Immediate32(t) => t,
                _ => 0,
            };
            lower_jcc(b, cc, target, instr.next_address)
        },
        Mnemonic::Cmovcc(cc) => {
            match ops[0] {
                Operand::Register(r) => lower_cmov(b, cc, r, ops[1]),
                _ => ControlFlow::NextInstruction,
            }
        },
        Mnemonic::Scas(ty, prefix) => lower_scas(b, ty, prefix, instr.address),
    };
    Ok(flow)
}

} // verus!
