use x86_lifter::block::{get_name_for, BlockTable};
use x86_lifter::flow::{arm_end, join, merge_edge_count, ArmEnd};
use x86_lifter::instruction::{lower_instruction, Instruction, Mnemonic};
use x86_lifter::interp::Interpreter;
use x86_lifter::control::Condition;
use x86_lifter::types::{
    ControlFlow, CpuContext, FullSizeGeneralPurposeRegister, IntType, MemoryOperand, Operand,
    Register,
};

#[test]
fn block_names_are_eight_hex_digits() {
    assert_eq!(get_name_for(0x1000), "sub_00001000");
    assert_eq!(get_name_for(0xdeadbeef), "sub_deadbeef");
    assert_eq!(get_name_for(0), "sub_00000000");
}

#[test]
fn second_request_returns_the_same_handle() {
    let mut t = BlockTable::new();
    let a = t.get_basic_block_fun(0x1000);
    let b = t.get_basic_block_fun(0x2000);
    let a2 = t.get_basic_block_fun(0x1000);
    assert_eq!(a, a2);
    assert_ne!(a, b);
    assert_eq!(t.len(), 2);
    assert_eq!(t.address(b), 0x2000);
}

#[test]
fn joined_fallthrough_arms_bring_two_merge_edges() {
    let f = join(ControlFlow::NextInstruction, ControlFlow::NextInstruction);
    assert_eq!(merge_edge_count(&f), 2);
    match f {
        ControlFlow::Conditional(v) => assert_eq!(v.len(), 2),
        _ => panic!("not a conditional"),
    }
}

#[test]
fn a_jumping_arm_brings_no_merge_edge() {
    let f = join(ControlFlow::DirectJump(0x40), ControlFlow::NextInstruction);
    assert_eq!(merge_edge_count(&f), 1);
    let g = join(ControlFlow::DirectJump(0x40), ControlFlow::Return);
    assert_eq!(merge_edge_count(&g), 0);
}

#[test]
fn join_flattens_one_level() {
    let inner = join(ControlFlow::NextInstruction, ControlFlow::DirectJump(8));
    let outer = join(inner, ControlFlow::NextInstruction);
    match &outer {
        ControlFlow::Conditional(v) => {
            assert_eq!(v.len(), 3);
            assert!(matches!(v[1], ControlFlow::DirectJump(8)));
        },
        _ => panic!("not a conditional"),
    }
    assert_eq!(merge_edge_count(&outer), 2);
}

#[test]
fn arm_ends_follow_the_flow() {
    assert_eq!(arm_end(&ControlFlow::NextInstruction), ArmEnd::BranchToMerge);
    assert_eq!(arm_end(&ControlFlow::DirectJump(5)), ArmEnd::TailCall(5));
    assert_eq!(arm_end(&ControlFlow::Return), ArmEnd::ReturnFromBlock);
    assert_eq!(arm_end(&ControlFlow::Conditional(vec![])), ArmEnd::Nested);
}

#[test]
fn lowered_flows() {
    let mut m = Interpreter::new(CpuContext { gp_regs: [0; 8], flags: [0; 8] });
    let jcc = Instruction {
        mnemonic: Mnemonic::Jcc(Condition::Equal),
        operands: vec![Operand::Immediate32(0x50)],
        address: 0x10,
        next_address: 0x12,
    };
    let r = lower_instruction(&mut m, &jcc).unwrap();
    assert!(matches!(r, ControlFlow::ConditionalBranch(0x50, 0x12)));
    assert_eq!(m.exit(), None);
    let cmov = Instruction {
        mnemonic: Mnemonic::Cmovcc(Condition::NotEqual),
        operands: vec![Operand::Register(Register::EAX), Operand::Register(Register::EBX)],
        address: 0x12,
        next_address: 0x15,
    };
    let r = lower_instruction(&mut m, &cmov).unwrap();
    assert_eq!(merge_edge_count(&r), 2);
    let ret = Instruction { mnemonic: Mnemonic::Ret, operands: vec![], address: 0x15, next_address: 0x16 };
    assert!(matches!(lower_instruction(&mut m, &ret).unwrap(), ControlFlow::Return));
}

#[test]
fn register_model() {
    assert_eq!(Register::AH.size(), IntType::I8);
    assert_eq!(Register::SI.size(), IntType::I16);
    assert_eq!(Register::EDI.size(), IntType::I32);
    assert_eq!(Register::CH.parent_register(), FullSizeGeneralPurposeRegister::ECX);
    assert_eq!(FullSizeGeneralPurposeRegister::try_from(Register::ESP), Ok(FullSizeGeneralPurposeRegister::ESP));
    assert_eq!(FullSizeGeneralPurposeRegister::try_from(Register::SP), Err(()));
    assert_eq!(FullSizeGeneralPurposeRegister::EDI.index(), 7);
}

#[test]
fn width_queries() {
    assert_eq!(IntType::I8.bit_width(), 8);
    assert_eq!(IntType::I64.bit_width(), 64);
    assert_eq!(IntType::I16.double_sized(), IntType::I32);
    assert_eq!(IntType::I32.double_sized(), IntType::I64);
    assert_eq!(Operand::Immediate16(3).size(), IntType::I16);
    let m = MemoryOperand {
        base: None,
        displacement: 0,
        scale: 1,
        index: None,
        size: Some(IntType::I8),
        segment: None,
    };
    assert_eq!(Operand::Memory(m).size(), IntType::I8);
    assert_eq!(Operand::Register(Register::BX).size(), IntType::I16);
}
