use x86_lifter::control::Condition;
use x86_lifter::instruction::{Instruction, LowerError, Mnemonic};
use x86_lifter::interp::Interpreter;
use x86_lifter::run::{run, RunError};
use x86_lifter::string::RepPrefix;
use x86_lifter::types::{CpuContext, Flag, IntType, MemoryOperand, Operand, Register};

const BASE: u32 = 0x1000;
const STRIDE: u32 = 0x10;

fn reg(r: Register) -> Operand {
    Operand::Register(r)
}

fn imm8(v: u8) -> Operand {
    Operand::Immediate8(v)
}

fn imm32(v: u32) -> Operand {
    Operand::Immediate32(v)
}

fn mem(base: Option<Register>, displacement: i64, size: IntType) -> Operand {
    Operand::Memory(MemoryOperand {
        base,
        displacement,
        scale: 1,
        index: None,
        size: Some(size),
        segment: None,
    })
}

fn fresh() -> Interpreter {
    Interpreter::new(CpuContext { gp_regs: [0; 8], flags: [0; 8] })
}

fn program(list: Vec<(Mnemonic, Vec<Operand>)>) -> Vec<Instruction> {
    let mut out = Vec::new();
    let mut addr = BASE;
    for (mnemonic, operands) in list {
        out.push(Instruction { mnemonic, operands, address: addr, next_address: addr + STRIDE });
        addr += STRIDE;
    }
    out
}

fn end_of(prog: &Vec<Instruction>) -> u32 {
    BASE + STRIDE * prog.len() as u32
}

/// Runs the program from its first instruction and checks that it runs to its end.
fn run_all(m: &mut Interpreter, list: Vec<(Mnemonic, Vec<Operand>)>) {
    let prog = program(list);
    let r = run(m, &prog, BASE, 1000);
    assert_eq!(r, Ok(end_of(&prog)));
}

fn flags4(m: &Interpreter) -> (bool, bool, bool, bool) {
    (m.flag(Flag::Carry), m.flag(Flag::Zero), m.flag(Flag::Sign), m.flag(Flag::Overflow))
}

#[test]
fn mov_al_into_dirty_eax_keeps_upper_bytes() {
    let mut m = fresh();
    run_all(&mut m, vec![
        (Mnemonic::Mov, vec![reg(Register::EAX), imm32(0x41424344)]),
        (Mnemonic::Mov, vec![reg(Register::AL), imm8(42)]),
    ]);
    // Only bits [7:0] change: 0x44 becomes 0x2A.
    assert_eq!(m.register(Register::EAX), 0x4142_432A);
}

#[test]
fn mov_ax_into_dirty_eax_keeps_upper_half() {
    let mut m = fresh();
    run_all(&mut m, vec![
        (Mnemonic::Mov, vec![reg(Register::EAX), imm32(0x41424344)]),
        (Mnemonic::Mov, vec![reg(Register::AX), Operand::Immediate16(42)]),
    ]);
    assert_eq!(m.register(Register::EAX), 0x4142002A);
}

#[test]
fn mov_ah_writes_second_byte() {
    let mut m = fresh();
    run_all(&mut m, vec![
        (Mnemonic::Mov, vec![reg(Register::EAX), imm32(0x41424344)]),
        (Mnemonic::Mov, vec![reg(Register::AH), imm8(42)]),
    ]);
    assert_eq!(m.register(Register::EAX), 0x41422A44);
    assert_eq!(m.register(Register::AH), 42);
    assert_eq!(m.register(Register::AL), 0x44);
}

#[test]
fn sub_borrow() {
    let mut m = fresh();
    run_all(&mut m, vec![
        (Mnemonic::Mov, vec![reg(Register::EAX), imm32(1)]),
        (Mnemonic::Sub, vec![reg(Register::EAX), imm32(2)]),
    ]);
    assert_eq!(m.register(Register::EAX), 0xFFFF_FFFF);
    assert_eq!(flags4(&m), (true, false, true, false));
}

#[test]
fn cmp_min_signed_with_one_overflows() {
    let mut m = fresh();
    run_all(&mut m, vec![
        (Mnemonic::Mov, vec![reg(Register::EAX), imm32(0x8000_0000)]),
        (Mnemonic::Cmp, vec![reg(Register::EAX), imm8(1)]),
    ]);
    assert_eq!(m.register(Register::EAX), 0x8000_0000);
    assert_eq!(flags4(&m), (false, false, false, true));
}

#[test]
fn cmp_minus_one_with_minus_two() {
    let mut m = fresh();
    run_all(&mut m, vec![
        (Mnemonic::Mov, vec![reg(Register::EAX), imm32(0xFFFF_FFFF)]),
        (Mnemonic::Cmp, vec![reg(Register::EAX), imm8(0xFE)]),
    ]);
    assert_eq!(flags4(&m), (false, false, false, false));
}

#[test]
fn cmp_rnd_1() {
    let mut m = fresh();
    run_all(&mut m, vec![
        (Mnemonic::Mov, vec![reg(Register::EAX), imm32(0x3e9c87ab)]),
        (Mnemonic::Cmp, vec![reg(Register::EAX), imm32(0x47f38608)]),
    ]);
    assert_eq!(flags4(&m), (true, false, true, false));
}

#[test]
fn inc_max_signed_overflows_and_keeps_carry() {
    for carry in [false, true] {
        let mut m = Interpreter::new(CpuContext {
            gp_regs: [0; 8],
            flags: [carry as u8, 0, 0, 0, 0, 0, 0, 0],
        });
        run_all(&mut m, vec![
            (Mnemonic::Mov, vec![reg(Register::EAX), imm32(0x7fff_ffff)]),
            (Mnemonic::Inc, vec![reg(Register::EAX)]),
        ]);
        assert_eq!(m.register(Register::EAX), 0x8000_0000);
        assert_eq!(flags4(&m), (carry, false, true, true));
    }
}

#[test]
fn inc_8_0x7f() {
    let mut m = fresh();
    run_all(&mut m, vec![
        (Mnemonic::Mov, vec![reg(Register::AL), imm8(0x7f)]),
        (Mnemonic::Inc, vec![reg(Register::AL)]),
    ]);
    assert_eq!(m.register(Register::EAX), 0x80);
    assert_eq!(flags4(&m), (false, false, true, true));
    assert!(m.flag(Flag::AuxiliaryCarry));
}

#[test]
fn dec_neg_0x80000000() {
    let mut m = fresh();
    run_all(&mut m, vec![
        (Mnemonic::Mov, vec![reg(Register::EAX), imm32(0x8000_0000)]),
        (Mnemonic::Dec, vec![reg(Register::EAX)]),
    ]);
    assert_eq!(m.register(Register::EAX), 0x7fff_ffff);
    assert_eq!(flags4(&m), (false, false, false, true));
}

#[test]
fn dec_16_0_wraps_ax_only() {
    let mut m = fresh();
    run_all(&mut m, vec![
        (Mnemonic::Mov, vec![reg(Register::EAX), imm32(0x1234_0000)]),
        (Mnemonic::Dec, vec![reg(Register::AX)]),
    ]);
    assert_eq!(m.register(Register::EAX), 0x1234_ffff);
    assert_eq!(flags4(&m), (false, false, true, false));
}

#[test]
fn sar_al_by_nine_fills_with_sign() {
    let mut m = fresh();
    run_all(&mut m, vec![
        (Mnemonic::Mov, vec![reg(Register::AL), imm8(0xF8)]),
        (Mnemonic::Sar, vec![reg(Register::AL), imm8(9)]),
    ]);
    assert_eq!(m.register(Register::AL), 0xFF);
    assert!(m.flag(Flag::Carry));
}

#[test]
fn sar_neg_229_two() {
    let mut m = fresh();
    run_all(&mut m, vec![
        (Mnemonic::Mov, vec![reg(Register::EAX), imm32(0xFFFF_FF1B)]),
        (Mnemonic::Sar, vec![reg(Register::EAX), imm8(2)]),
    ]);
    assert_eq!(m.register(Register::EAX), 0xFFFF_FFC6);
    assert!(m.flag(Flag::Carry));
    assert!(m.flag(Flag::Sign));
}

#[test]
fn shr_neg_229_one() {
    let mut m = fresh();
    run_all(&mut m, vec![
        (Mnemonic::Mov, vec![reg(Register::EAX), imm32(0xFFFF_FF1B)]),
        (Mnemonic::Shr, vec![reg(Register::EAX), imm8(1)]),
    ]);
    assert_eq!(m.register(Register::EAX), 0x7FFF_FF8D);
    assert_eq!(flags4(&m), (true, false, false, true));
}

#[test]
fn shr_228_one_wrap_masks_the_count() {
    let mut m = fresh();
    run_all(&mut m, vec![
        (Mnemonic::Mov, vec![reg(Register::EAX), imm32(228)]),
        (Mnemonic::Shr, vec![reg(Register::EAX), imm8(33)]),
    ]);
    assert_eq!(m.register(Register::EAX), 114);
    assert_eq!(flags4(&m), (false, false, false, false));
}

#[test]
fn shl_by_cl_sets_carry_and_overflow() {
    let mut m = fresh();
    run_all(&mut m, vec![
        (Mnemonic::Mov, vec![reg(Register::EAX), imm32(0x8000_0001)]),
        (Mnemonic::Mov, vec![reg(Register::CL), imm8(1)]),
        (Mnemonic::Shl, vec![reg(Register::EAX), reg(Register::CL)]),
    ]);
    assert_eq!(m.register(Register::EAX), 2);
    assert_eq!(flags4(&m), (true, false, false, true));
}

#[test]
fn shift_by_zero_or_by_32_changes_no_flag() {
    for count in [0u8, 32u8] {
        let flags = [1u8, 1, 0, 1, 0, 1, 0, 0];
        let mut m = Interpreter::new(CpuContext { gp_regs: [228, 0, 0, 0, 0, 0, 0, 0], flags });
        run_all(&mut m, vec![(Mnemonic::Shl, vec![reg(Register::EAX), imm8(count)])]);
        assert_eq!(m.register(Register::EAX), 228);
        assert_eq!(flags4(&m), (true, true, false, true));
        assert!(m.flag(Flag::Parity));
    }
}

#[test]
fn div_edx_eax_by_ebx() {
    let mut m = fresh();
    run_all(&mut m, vec![
        (Mnemonic::Mov, vec![reg(Register::EAX), imm32(42)]),
        (Mnemonic::Mov, vec![reg(Register::EBX), imm32(24)]),
        (Mnemonic::Div, vec![reg(Register::EBX)]),
    ]);
    assert_eq!(m.register(Register::EAX), 1);
    assert_eq!(m.register(Register::EDX), 18);
}

#[test]
fn div_by_zero_is_refused() {
    let mut m = fresh();
    let prog = program(vec![
        (Mnemonic::Mov, vec![reg(Register::EAX), imm32(42)]),
        (Mnemonic::Div, vec![reg(Register::EBX)]),
    ]);
    assert_eq!(run(&mut m, &prog, BASE, 100), Err(RunError::DivideError));
    assert_eq!(m.register(Register::EAX), 42);
}

#[test]
fn mul_fills_edx() {
    let mut m = fresh();
    run_all(&mut m, vec![
        (Mnemonic::Mov, vec![reg(Register::EAX), imm32(0x8000_0000)]),
        (Mnemonic::Mov, vec![reg(Register::EBX), imm32(4)]),
        (Mnemonic::Mul, vec![reg(Register::EBX)]),
    ]);
    assert_eq!(m.register(Register::EAX), 0);
    assert_eq!(m.register(Register::EDX), 2);
    assert!(m.flag(Flag::Carry) && m.flag(Flag::Overflow));
}

#[test]
fn imul_2op() {
    let mut m = fresh();
    run_all(&mut m, vec![
        (Mnemonic::Mov, vec![reg(Register::EAX), imm32(23)]),
        (Mnemonic::Mov, vec![reg(Register::EBX), imm32(24)]),
        (Mnemonic::Imul, vec![reg(Register::EAX), reg(Register::EBX)]),
    ]);
    assert_eq!(m.register(Register::EAX), 552);
    assert!(!m.flag(Flag::Carry) && !m.flag(Flag::Overflow));
}

#[test]
fn imul_2op_overflow() {
    let mut m = fresh();
    run_all(&mut m, vec![
        (Mnemonic::Mov, vec![reg(Register::EAX), imm32(0x7fff_ffff)]),
        (Mnemonic::Mov, vec![reg(Register::EBX), imm32(0x7fff_ffff)]),
        (Mnemonic::Imul, vec![reg(Register::EAX), reg(Register::EBX)]),
    ]);
    assert_eq!(m.register(Register::EAX), 1);
    assert!(m.flag(Flag::Carry) && m.flag(Flag::Overflow));
}

#[test]
fn imul_2op_negative_fits() {
    let mut m = fresh();
    run_all(&mut m, vec![
        (Mnemonic::Mov, vec![reg(Register::EAX), imm32(0xFFFF_FFFE)]),
        (Mnemonic::Imul, vec![reg(Register::EAX), imm8(3)]),
    ]);
    assert_eq!(m.register(Register::EAX), 0xFFFF_FFFA);
    assert!(!m.flag(Flag::Carry) && !m.flag(Flag::Overflow));
}

#[test]
fn scasb_equal_advances_edi() {
    let mut m = fresh();
    m.poke(0x2000, 0x11);
    run_all(&mut m, vec![
        (Mnemonic::Mov, vec![reg(Register::AL), imm8(0x11)]),
        (Mnemonic::Mov, vec![reg(Register::EDI), imm32(0x2000)]),
        (Mnemonic::Scas(IntType::I8, RepPrefix::NoRep), vec![]),
    ]);
    assert!(m.flag(Flag::Zero));
    assert_eq!(m.register(Register::EDI), 0x2001);
}

#[test]
fn scasb_backward_when_direction_set() {
    let mut m = Interpreter::new(CpuContext {
        gp_regs: [0x22, 0, 0, 0, 0, 0, 0, 0x2000],
        flags: [0, 0, 0, 0, 0, 0, 1, 0],
    });
    m.poke(0x2000, 0x11);
    run_all(&mut m, vec![(Mnemonic::Scas(IntType::I8, RepPrefix::NoRep), vec![])]);
    assert!(!m.flag(Flag::Zero));
    assert_eq!(m.register(Register::EDI), 0x1FFF);
}

#[test]
fn repe_scasb_stops_at_first_difference() {
    let mut m = fresh();
    for (i, b) in [0x11u8, 0x11, 0x12, 0x11].iter().enumerate() {
        m.poke(0x2000 + i as u32, *b);
    }
    run_all(&mut m, vec![
        (Mnemonic::Mov, vec![reg(Register::AL), imm8(0x11)]),
        (Mnemonic::Mov, vec![reg(Register::EDI), imm32(0x2000)]),
        (Mnemonic::Mov, vec![reg(Register::ECX), imm32(4)]),
        (Mnemonic::Scas(IntType::I8, RepPrefix::Repe), vec![]),
    ]);
    assert_eq!(m.register(Register::ECX), 1);
    assert_eq!(m.register(Register::EDI), 0x2003);
    assert!(!m.flag(Flag::Zero));
}

#[test]
fn repne_scasb_stops_at_match() {
    let mut m = fresh();
    for (i, b) in [0x01u8, 0x02, 0x03, 0x04, 0x05].iter().enumerate() {
        m.poke(0x2000 + i as u32, *b);
    }
    run_all(&mut m, vec![
        (Mnemonic::Mov, vec![reg(Register::AL), imm8(0x03)]),
        (Mnemonic::Mov, vec![reg(Register::EDI), imm32(0x2000)]),
        (Mnemonic::Mov, vec![reg(Register::ECX), imm32(5)]),
        (Mnemonic::Scas(IntType::I8, RepPrefix::Repne), vec![]),
    ]);
    assert_eq!(m.register(Register::ECX), 2);
    assert_eq!(m.register(Register::EDI), 0x2003);
    assert!(m.flag(Flag::Zero));
}

#[test]
fn rep_scas_with_zero_count_does_nothing() {
    let mut m = Interpreter::new(CpuContext {
        gp_regs: [0x11, 0, 0, 0, 0, 0, 0, 0x2000],
        flags: [1, 0, 0, 0, 1, 0, 0, 0],
    });
    m.poke(0x2000, 0x11);
    run_all(&mut m, vec![(Mnemonic::Scas(IntType::I8, RepPrefix::Repe), vec![])]);
    assert_eq!(m.register(Register::EDI), 0x2000);
    assert_eq!(m.register(Register::ECX), 0);
    assert_eq!(flags4(&m), (true, false, true, false));
}

#[test]
fn push_leave_ret_restores_the_frame() {
    let mut m = Interpreter::new(CpuContext {
        gp_regs: [0, 0, 0, 0, 0x8000, 0x55, 0, 0],
        flags: [0; 8],
    });
    for (i, b) in 0xdead_beefu32.to_le_bytes().iter().enumerate() {
        m.poke(0x8000 + i as u32, *b);
    }
    let prog = program(vec![
        (Mnemonic::Push, vec![imm32(0x1337)]),
        (Mnemonic::Mov, vec![reg(Register::EBP), reg(Register::ESP)]),
        (Mnemonic::Leave, vec![]),
        (Mnemonic::Ret, vec![]),
    ]);
    assert_eq!(run(&mut m, &prog, BASE, 100), Ok(0xdead_beef));
    assert_eq!(m.register(Register::ESP), 0x8004);
    assert_eq!(m.register(Register::EBP), 0x1337);
}

#[test]
fn call_pushes_the_return_address() {
    let mut m = Interpreter::new(CpuContext {
        gp_regs: [0, 0, 0, 0, 0x8000, 0, 0, 0],
        flags: [0; 8],
    });
    let prog = program(vec![(Mnemonic::Call, vec![imm32(0x4000)])]);
    assert_eq!(run(&mut m, &prog, BASE, 100), Ok(0x4000));
    assert_eq!(m.register(Register::ESP), 0x7FFC);
    let ret: Vec<u8> = (0..4).map(|i| m.peek(0x7FFC + i)).collect();
    assert_eq!(ret, (BASE + STRIDE).to_le_bytes().to_vec());
}

#[test]
fn pop_into_register() {
    let mut m = Interpreter::new(CpuContext {
        gp_regs: [0, 0, 0, 0, 0x8000, 0, 0, 0],
        flags: [0; 8],
    });
    run_all(&mut m, vec![
        (Mnemonic::Push, vec![imm32(0xCAFE_F00D)]),
        (Mnemonic::Pop, vec![reg(Register::ESI)]),
    ]);
    assert_eq!(m.register(Register::ESI), 0xCAFE_F00D);
    assert_eq!(m.register(Register::ESP), 0x8000);
}

#[test]
fn sub_branch_sign() {
    let mut m = fresh();
    // L1 is the sixth instruction, R the seventh.
    let l1 = BASE + 5 * STRIDE;
    let r = BASE + 6 * STRIDE;
    run_all(&mut m, vec![
        (Mnemonic::Mov, vec![reg(Register::EAX), imm32(1)]),
        (Mnemonic::Sub, vec![reg(Register::EAX), imm32(2)]),
        (Mnemonic::Jcc(Condition::Sign), vec![imm32(l1)]),
        (Mnemonic::Mov, vec![reg(Register::EBX), imm32(1)]),
        (Mnemonic::Jmp, vec![imm32(r)]),
        (Mnemonic::Mov, vec![reg(Register::EBX), imm32(2)]),
        (Mnemonic::Mov, vec![reg(Register::EDX), imm32(1)]),
    ]);
    assert_eq!(m.register(Register::EBX), 2);
    assert_eq!(m.register(Register::EDX), 1);
}

#[test]
fn add_branch_sign() {
    let mut m = fresh();
    let l1 = BASE + 5 * STRIDE;
    let r = BASE + 6 * STRIDE;
    run_all(&mut m, vec![
        (Mnemonic::Mov, vec![reg(Register::EAX), imm32(1)]),
        (Mnemonic::Add, vec![reg(Register::EAX), imm32(2)]),
        (Mnemonic::Jcc(Condition::Sign), vec![imm32(l1)]),
        (Mnemonic::Mov, vec![reg(Register::EBX), imm32(1)]),
        (Mnemonic::Jmp, vec![imm32(r)]),
        (Mnemonic::Mov, vec![reg(Register::EBX), imm32(2)]),
        (Mnemonic::Mov, vec![reg(Register::EDX), imm32(1)]),
    ]);
    assert_eq!(m.register(Register::EAX), 3);
    assert_eq!(m.register(Register::EBX), 1);
    assert_eq!(m.register(Register::EDX), 1);
}

#[test]
fn sub_cmov_sign() {
    for (start, expected) in [(1u32, 2u64), (3, 0)] {
        let mut m = fresh();
        run_all(&mut m, vec![
            (Mnemonic::Mov, vec![reg(Register::EAX), imm32(start)]),
            (Mnemonic::Sub, vec![reg(Register::EAX), imm32(2)]),
            (Mnemonic::Mov, vec![reg(Register::ECX), imm32(2)]),
            (Mnemonic::Cmovcc(Condition::Sign), vec![reg(Register::EBX), reg(Register::ECX)]),
        ]);
        assert_eq!(m.register(Register::EBX), expected);
    }
}

#[test]
fn cmp_cmov_eq() {
    for (other, expected) in [(12u32, 2u64), (13, 0)] {
        let mut m = fresh();
        run_all(&mut m, vec![
            (Mnemonic::Mov, vec![reg(Register::EAX), imm32(12)]),
            (Mnemonic::Cmp, vec![reg(Register::EAX), imm32(other)]),
            (Mnemonic::Mov, vec![reg(Register::ECX), imm32(2)]),
            (Mnemonic::Cmovcc(Condition::Equal), vec![reg(Register::EBX), reg(Register::ECX)]),
        ]);
        assert_eq!(m.register(Register::EBX), expected);
    }
}

#[test]
fn signed_conditions_follow_sign_and_overflow() {
    let cases = [
        (5u32, 7u32, true, true),
        (0xFFFF_FFFF, 1, true, false),
        (1, 0xFFFF_FFFF, false, true),
        (7, 5, false, false),
    ];
    for (a, b, less, below) in cases {
        let mut m = fresh();
        run_all(&mut m, vec![
            (Mnemonic::Mov, vec![reg(Register::EAX), imm32(a)]),
            (Mnemonic::Cmp, vec![reg(Register::EAX), imm32(b)]),
            (Mnemonic::Mov, vec![reg(Register::ECX), imm32(1)]),
            (Mnemonic::Cmovcc(Condition::Less), vec![reg(Register::EBX), reg(Register::ECX)]),
            (Mnemonic::Cmovcc(Condition::Below), vec![reg(Register::EDX), reg(Register::ECX)]),
        ]);
        assert_eq!(m.register(Register::EBX), less as u64);
        assert_eq!(m.register(Register::EDX), below as u64);
    }
}

#[test]
fn lea_idx_disp() {
    let mut m = fresh();
    run_all(&mut m, vec![
        (Mnemonic::Mov, vec![reg(Register::EAX), imm32(1228)]),
        (Mnemonic::Mov, vec![reg(Register::EBX), imm32(337)]),
        (
            Mnemonic::Lea,
            vec![
                reg(Register::ECX),
                Operand::Memory(MemoryOperand {
                    base: Some(Register::EAX),
                    displacement: 7,
                    scale: 4,
                    index: Some(Register::EBX),
                    size: Some(IntType::I32),
                    segment: None,
                }),
            ],
        ),
    ]);
    assert_eq!(m.register(Register::ECX), 2583);
}

#[test]
fn lea_negative_displacement_wraps() {
    let mut m = fresh();
    run_all(&mut m, vec![(Mnemonic::Lea, vec![reg(Register::ECX), mem(None, -1, IntType::I32)])]);
    assert_eq!(m.register(Register::ECX), 0xFFFF_FFFF);
}

#[test]
fn mem_basic_rw() {
    let mut m = fresh();
    for (i, b) in [0x11u8, 0x22, 0x33, 0x44].iter().enumerate() {
        m.poke(0x3000 + i as u32, *b);
    }
    run_all(&mut m, vec![
        (Mnemonic::Mov, vec![reg(Register::EAX), imm32(42)]),
        (Mnemonic::Mov, vec![reg(Register::EAX), mem(None, 0x3000, IntType::I32)]),
        (Mnemonic::Mov, vec![reg(Register::EBX), imm32(0x55)]),
        (Mnemonic::Mov, vec![mem(None, 0x3000, IntType::I32), reg(Register::EBX)]),
    ]);
    assert_eq!(m.register(Register::EAX), 0x4433_2211);
    let bytes: Vec<u8> = (0..4).map(|i| m.peek(0x3000 + i)).collect();
    assert_eq!(bytes, vec![0x55, 0, 0, 0]);
}

#[test]
fn add_to_memory_through_base_register() {
    let mut m = fresh();
    m.poke(0x3004, 0xFF);
    run_all(&mut m, vec![
        (Mnemonic::Mov, vec![reg(Register::ESI), imm32(0x3000)]),
        (Mnemonic::Add, vec![mem(Some(Register::ESI), 4, IntType::I8), imm8(1)]),
    ]);
    assert_eq!(m.peek(0x3004), 0);
    assert_eq!(flags4(&m), (true, true, false, false));
}

#[test]
fn xor_zero_eax() {
    let mut m = fresh();
    run_all(&mut m, vec![
        (Mnemonic::Mov, vec![reg(Register::EAX), imm32(228)]),
        (Mnemonic::Xor, vec![reg(Register::EAX), reg(Register::EAX)]),
    ]);
    assert_eq!(m.register(Register::EAX), 0);
    assert_eq!(flags4(&m), (false, true, false, false));
    assert!(m.flag(Flag::Parity));
}

#[test]
fn and_eax_ebx_rnd2() {
    let mut m = Interpreter::new(CpuContext { gp_regs: [0; 8], flags: [1, 0, 1, 0, 0, 1, 0, 0] });
    run_all(&mut m, vec![
        (Mnemonic::Mov, vec![reg(Register::EAX), imm32(0x79f9322a)]),
        (Mnemonic::Mov, vec![reg(Register::EBX), imm32(0x0801efd8)]),
        (Mnemonic::And, vec![reg(Register::EAX), reg(Register::EBX)]),
    ]);
    assert_eq!(m.register(Register::EAX), 0x0801_2208);
    assert_eq!(flags4(&m), (false, false, false, false));
    assert!(!m.flag(Flag::AuxiliaryCarry));
}

#[test]
fn test_same_eax_ebx_writes_nothing() {
    let mut m = fresh();
    run_all(&mut m, vec![
        (Mnemonic::Mov, vec![reg(Register::EAX), imm32(0x8000_0000)]),
        (Mnemonic::Test, vec![reg(Register::EAX), reg(Register::EAX)]),
    ]);
    assert_eq!(m.register(Register::EAX), 0x8000_0000);
    assert_eq!(flags4(&m), (false, false, true, false));
}

#[test]
fn or_sets_parity_from_low_byte() {
    let mut m = fresh();
    run_all(&mut m, vec![
        (Mnemonic::Mov, vec![reg(Register::EAX), imm32(0x100)]),
        (Mnemonic::Or, vec![reg(Register::EAX), imm32(0x7)]),
    ]);
    assert_eq!(m.register(Register::EAX), 0x107);
    assert!(!m.flag(Flag::Parity));
}

#[test]
fn not_keeps_flags() {
    let flags = [1u8, 1, 1, 1, 1, 1, 0, 0];
    let mut m = Interpreter::new(CpuContext { gp_regs: [0x79f9322a, 0, 0, 0, 0, 0, 0, 0], flags });
    run_all(&mut m, vec![(Mnemonic::Not, vec![reg(Register::AX)])]);
    assert_eq!(m.register(Register::EAX), 0x79f9_CDD5);
    assert_eq!(flags4(&m), (true, true, true, true));
    run_all(&mut m, vec![(Mnemonic::Not, vec![reg(Register::AL)])]);
    assert_eq!(m.register(Register::EAX), 0x79f9_CD2A);
}

#[test]
fn neg_sets_carry_for_nonzero() {
    let mut m = fresh();
    run_all(&mut m, vec![
        (Mnemonic::Mov, vec![reg(Register::EAX), imm32(5)]),
        (Mnemonic::Neg, vec![reg(Register::EAX)]),
    ]);
    assert_eq!(m.register(Register::EAX), 0xFFFF_FFFB);
    assert_eq!(flags4(&m), (true, false, true, false));
    run_all(&mut m, vec![
        (Mnemonic::Mov, vec![reg(Register::EAX), imm32(0x8000_0000)]),
        (Mnemonic::Neg, vec![reg(Register::EAX)]),
    ]);
    assert_eq!(m.register(Register::EAX), 0x8000_0000);
    assert_eq!(flags4(&m), (true, false, true, true));
}

#[test]
fn add_carry_and_aux_carry() {
    let mut m = fresh();
    run_all(&mut m, vec![
        (Mnemonic::Mov, vec![reg(Register::AL), imm8(0xFF)]),
        (Mnemonic::Add, vec![reg(Register::AL), imm8(1)]),
    ]);
    assert_eq!(m.register(Register::EAX), 0);
    assert_eq!(flags4(&m), (true, true, false, false));
    assert!(m.flag(Flag::AuxiliaryCarry));
}

#[test]
fn far_branch_is_refused() {
    let mut m = fresh();
    let prog = program(vec![(Mnemonic::Jmp, vec![Operand::FarBranch(8, 0x1000)])]);
    assert_eq!(run(&mut m, &prog, BASE, 10), Err(RunError::Lower(LowerError::UnsupportedOperand)));
}

#[test]
fn segment_override_is_refused() {
    let mut m = fresh();
    let op = Operand::Memory(MemoryOperand {
        base: None,
        displacement: 0,
        scale: 1,
        index: None,
        size: Some(IntType::I32),
        segment: Some(x86_lifter::types::SegmentRegister::FS),
    });
    let prog = program(vec![(Mnemonic::Mov, vec![reg(Register::EAX), op])]);
    assert_eq!(run(&mut m, &prog, BASE, 10), Err(RunError::Lower(LowerError::UnsupportedOperand)));
}

#[test]
fn wrong_operand_count_is_refused() {
    let mut m = fresh();
    let prog = program(vec![(Mnemonic::Add, vec![reg(Register::EAX)])]);
    assert_eq!(run(&mut m, &prog, BASE, 10), Err(RunError::Lower(LowerError::OperandCount)));
}

#[test]
fn width_mismatch_is_refused() {
    let mut m = fresh();
    let prog = program(vec![(Mnemonic::Mov, vec![reg(Register::AL), reg(Register::EBX)])]);
    assert_eq!(run(&mut m, &prog, BASE, 10), Err(RunError::Lower(LowerError::UnsupportedOperand)));
}

#[test]
fn endless_loop_runs_out_of_steps() {
    let mut m = fresh();
    let prog = program(vec![(Mnemonic::Jmp, vec![imm32(BASE)])]);
    assert_eq!(run(&mut m, &prog, BASE, 5), Err(RunError::OutOfSteps));
}

#[test]
fn enter_then_leave_round_trip() {
    let mut m = Interpreter::new(CpuContext {
        gp_regs: [0, 0, 0, 0, 0x8000, 0x55, 0, 0],
        flags: [0; 8],
    });
    run_all(&mut m, vec![(Mnemonic::Enter, vec![Operand::Immediate16(8), imm8(0)])]);
    assert_eq!(m.register(Register::EBP), 0x7FFC);
    assert_eq!(m.register(Register::ESP), 0x7FF4);
    assert_eq!(m.peek(0x7FFC), 0x55);
    run_all(&mut m, vec![(Mnemonic::Leave, vec![])]);
    assert_eq!(m.register(Register::EBP), 0x55);
    assert_eq!(m.register(Register::ESP), 0x8000);
}

#[test]
fn enter_with_nesting_is_refused() {
    let mut m = fresh();
    let prog = program(vec![(Mnemonic::Enter, vec![Operand::Immediate16(8), imm8(1)])]);
    assert_eq!(run(&mut m, &prog, BASE, 10), Err(RunError::Lower(LowerError::UnsupportedOperand)));
}

#[test]
fn store_wraps_around_the_address_space() {
    let mut m = fresh();
    run_all(&mut m, vec![
        (Mnemonic::Mov, vec![reg(Register::EAX), imm32(0x1122_3344)]),
        (Mnemonic::Mov, vec![mem(None, -2, IntType::I32), reg(Register::EAX)]),
        (Mnemonic::Mov, vec![reg(Register::EBX), mem(None, -2, IntType::I32)]),
    ]);
    assert_eq!(m.peek(0xFFFF_FFFE), 0x44);
    assert_eq!(m.peek(0xFFFF_FFFF), 0x33);
    assert_eq!(m.peek(0), 0x22);
    assert_eq!(m.peek(1), 0x11);
    assert_eq!(m.register(Register::EBX), 0x1122_3344);
}

#[test]
fn word_memory_operand_with_index() {
    let mut m = fresh();
    m.poke(0x3008, 0xFF);
    m.poke(0x3009, 0x7F);
    let word = Operand::Memory(MemoryOperand {
        base: Some(Register::ESI),
        displacement: 0,
        scale: 2,
        index: Some(Register::ECX),
        size: Some(IntType::I16),
        segment: None,
    });
    run_all(&mut m, vec![
        (Mnemonic::Mov, vec![reg(Register::ESI), imm32(0x3000)]),
        (Mnemonic::Mov, vec![reg(Register::ECX), imm32(4)]),
        (Mnemonic::Add, vec![word, imm8(1)]),
    ]);
    assert_eq!(m.peek(0x3008), 0x00);
    assert_eq!(m.peek(0x3009), 0x80);
    assert_eq!(flags4(&m), (false, false, true, true));
}

#[test]
fn add_to_ah_carries_out_of_the_byte_only() {
    let mut m = fresh();
    run_all(&mut m, vec![
        (Mnemonic::Mov, vec![reg(Register::EAX), imm32(0x1234_FF56)]),
        (Mnemonic::Add, vec![reg(Register::AH), imm8(1)]),
    ]);
    assert_eq!(m.register(Register::EAX), 0x1234_0056);
    assert_eq!(flags4(&m), (true, true, false, false));
}
