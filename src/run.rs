use vstd::prelude::*;
use crate::instruction::{
    arity,
    arity_of,
    instruction_ok,
    lower_instruction,
    operands_supported,
    runnable,
    step_spec,
    Instruction,
    LowerError,
    Mnemonic,
};
use crate::backend::{Builder, IntValue};
use crate::interp::Interpreter;
use crate::lower::{div_defined, lemma_operand_fits};
use crate::state::MachineState;
use crate::types::{ControlFlow, Operand, Register};

verus! {

/// Why a run stopped before control left the program.
#[derive(Debug, Clone, Copy, PartialEq, Eq, Structural)]
pub enum RunError {
    /// An instruction could not be lowered.
    Lower(LowerError),
    /// A DIV would raise a divide error, which the core does not emit.
    DivideError,
    /// The run took all the steps it was given.
    OutOfSteps,
}

/// The position of the first instruction at `pc`, from position `i` on.
pub open spec fn find_from(prog: Seq<Instruction>, pc: u32, i: nat) -> Option<nat>
    decreases prog.len() - i,
{
    if i >= prog.len() {
        None
    } else if prog[i as int].address == pc {
        Some(i)
    } else {
        find_from(prog, pc, i + 1)
    }
}

/// Where control goes after `i` left the state `s`: the target of a direct jump or call, the
/// address the instruction left for, or the next instruction.
pub open spec fn next_pc(i: Instruction, s: MachineState) -> u32 {
    if (i.mnemonic == Mnemonic::Jmp || i.mnemonic == Mnemonic::Call)
        && i.operands@[0] is Immediate32 {
        i.operands@[0]->Immediate32_0
    } else {
        match s.exit {
            Some(t) => t,
            None => i.next_address,
        }
    }
}

pub open spec fn lower_error_of(i: Instruction) -> LowerError {
    if i.operands@.len() != arity(i.mnemonic) {
        LowerError::OperandCount
    } else {
        LowerError::UnsupportedOperand
    }
}

/// A run of at most `fuel` instructions of `prog` from `pc`: the state it ends in, and where
/// control left the program or why the run stopped.
pub open spec fn run_spec(s: MachineState, prog: Seq<Instruction>, pc: u32, fuel: nat) -> (
    MachineState,
    Result<u32, RunError>,
)
    decreases fuel,
{
    match find_from(prog, pc, 0) {
        None => (s, Ok(pc)),
        Some(k) => {
            if fuel == 0 {
                (s, Err(RunError::OutOfSteps))
            } else {
                let i = prog[k as int];
                let s0 = MachineState { exit: None, ..s };
                if !instruction_ok(i) {
                    (s0, Err(RunError::Lower(lower_error_of(i))))
                } else if !runnable(s0, i) {
                    (s0, Err(RunError::DivideError))
                } else {
                    let s1 = step_spec(s0, i);
                    run_spec(s1, prog, next_pc(i, s1), (fuel - 1) as nat)
                }
            }
        },
    }
}

fn find(prog: &Vec<Instruction>, pc: u32) -> (r: Option<usize>)
    ensures
        match r {
            Some(k) => k < prog@.len() && find_from(prog@, pc, 0) == Some(k as nat),
            None => find_from(prog@, pc, 0) is None,
        },
{
    let mut i: usize = 0;
    while i < prog.len()
        invariant
            i <= prog@.len(),
            find_from(prog@, pc, 0) == find_from(prog@, pc, i as nat),
        decreases prog@.len() - i,
    {
        if prog[i].address == pc {
            return Some(i);
        }
        i = i + 1;
    }
    None
}

/// Whether a 32-bit DIV by `src` raises no divide error in the interpreter's state.
fn div_check(m: &mut Interpreter, src: Operand) -> (r: bool)
    requires
        old(m).state().well_formed(),
        crate::control::operand32_ok(src),
    ensures
        final(m).state() == old(m).state(),
        r == div_defined(old(m).state(), src),
{
    let ghost s0 = m.state();
    proof {
        lemma_operand_fits(s0, src);
        lemma_operand_fits(s0, Operand::Register(Register::EAX));
        lemma_operand_fits(s0, Operand::Register(Register::EDX));
    }
    let v = m.load_operand(src);
    let d = v.value();
    let lo = m.register(Register::EAX);
    let hi = m.register(Register::EDX);
    if d == 0 {
        return false;
    }
    let n: u64 = hi * 0x1_0000_0000 + lo;
    n / d < 0x1_0000_0000
}

/// Runs one instruction on the interpreter, after forgetting any earlier exit.
fn run_one(m: &mut Interpreter, instr: &Instruction) -> (r: Result<u32, RunError>)
    requires
        old(m).state().well_formed(),
    ensures
        final(m).state().well_formed(),
        ({
            let s0 = MachineState { exit: None, ..old(m).state() };
            if !instruction_ok(*instr) {
                final(m).state() == s0 && r == Err::<u32, RunError>(
                    RunError::Lower(lower_error_of(*instr)),
                )
            } else if !runnable(s0, *instr) {
                final(m).state() == s0 && r == Err::<u32, RunError>(RunError::DivideError)
            } else {
                final(m).state() == step_spec(s0, *instr) && r == Ok::<u32, RunError>(
                    next_pc(*instr, final(m).state()),
                )
            }
        }),
{
    m.clear_exit();
    let count_ok = instr.operands.len() == arity_of(instr.mnemonic);
    if count_ok && instr.mnemonic == Mnemonic::Div && operands_supported(
        instr.mnemonic,
        &instr.operands,
    ) {
        if !div_check(m, instr.operands[0]) {
            return Err(RunError::DivideError);
        }
    }
    let flow = match lower_instruction(m, instr) {
        Ok(flow) => flow,
        Err(e) => {
            return Err(RunError::Lower(e));
        },
    };
    proof {
        m.lemma_well_formed();
    }
    let next = match flow {
        ControlFlow::DirectJump(t) => t,
        _ => match m.exit() {
            Some(t) => t,
            None => instr.next_address,
        },
    };
    Ok(next)
}

/// Runs `prog` on the interpreter from `entry`, one instruction at a time, until control
/// leaves the program, an instruction cannot be run, or `max_steps` instructions have run.
pub fn run(m: &mut Interpreter, prog: &Vec<Instruction>, entry: u32, max_steps: usize) -> (r:
    Result<u32, RunError>)
    requires
        old(m).state().well_formed(),
    ensures
        (final(m).state(), r) == run_spec(old(m).state(), prog@, entry, max_steps as nat),
{
    let mut pc = entry;
    let mut fuel = max_steps;
    loop
        invariant
            m.state().well_formed(),
            run_spec(m.state(), prog@, pc, fuel as nat) == run_spec(
                old(m).state(),
                prog@,
                entry,
                max_steps as nat,
            ),
        decreases fuel,
    {
        proof {
            m.lemma_well_formed();
        }
        let k = match find(prog, pc) {
            None => {
                return Ok(pc);
            },
            Some(k) => k,
        };
        if fuel == 0 {
            return Err(RunError::OutOfSteps);
        }
        pc = match run_one(m, &prog[k]) {
            Ok(next) => next,
            Err(e) => {
                return Err(e);
            },
        };
        fuel = fuel - 1;
    }
}

} // verus!
