use vstd::prelude::*;

verus! {

/// Integer widths carried by IR values.
#[derive(Debug, Clone, Copy, PartialEq, Eq, Structural)]
pub enum IntType {
    I8,
    I16,
    I32,
    I64,
}

/// Number of bits of a width.
pub open spec fn width_bits(ty: IntType) -> nat {
    match ty {
        IntType::I8 => 8,
        IntType::I16 => 16,
        IntType::I32 => 32,
        IntType::I64 => 64,
    }
}

/// 2 to the power of the number of bits of a width: the values of that width are below it.
pub open spec fn modulus(ty: IntType) -> nat {
    match ty {
        IntType::I8 => 0x100,
        IntType::I16 => 0x1_0000,
        IntType::I32 => 0x1_0000_0000,
        IntType::I64 => 0x1_0000_0000_0000_0000,
    }
}

/// The all-ones value of a width.
pub open spec fn mask(ty: IntType) -> u64 {
    (modulus(ty) - 1) as u64
}

impl IntType {
    /// The width twice as wide; I64 has none.
    pub fn double_sized(self) -> (r: IntType)
        requires
            self != IntType::I64,
        ensures
            width_bits(r) == 2 * width_bits(self),
    {
        match self {
            IntType::I8 => IntType::I16,
            IntType::I16 => IntType::I32,
            _ => IntType::I64,
        }
    }

    pub fn bit_width(self) -> (r: u8)
        ensures
            r as nat == width_bits(self),
    {
        match self {
            IntType::I8 => 8,
            IntType::I16 => 16,
            IntType::I32 => 32,
            IntType::I64 => 64,
        }
    }

    /// The all-ones value of this width.
    pub fn mask(self) -> (r: u64)
        ensures
            r == mask(self),
    {
        match self {
            IntType::I8 => 0xff,
            IntType::I16 => 0xffff,
            IntType::I32 => 0xffff_ffff,
            IntType::I64 => 0xffff_ffff_ffff_ffff,
        }
    }
}

/// The eight 32-bit general-purpose registers, numbered as in ModR/M encoding.
#[derive(Debug, Clone, Copy, PartialEq, Eq, Structural)]
pub enum FullSizeGeneralPurposeRegister {
    EAX,
    EBX,
    ECX,
    EDX,
    ESP,
    EBP,
    ESI,
    EDI,
}

impl FullSizeGeneralPurposeRegister {
    /// Slot of the register in the context's register array.
    pub open spec fn slot(self) -> nat {
        match self {
            FullSizeGeneralPurposeRegister::EAX => 0,
            FullSizeGeneralPurposeRegister::EBX => 1,
            FullSizeGeneralPurposeRegister::ECX => 2,
            FullSizeGeneralPurposeRegister::EDX => 3,
            FullSizeGeneralPurposeRegister::ESP => 4,
            FullSizeGeneralPurposeRegister::EBP => 5,
            FullSizeGeneralPurposeRegister::ESI => 6,
            FullSizeGeneralPurposeRegister::EDI => 7,
        }
    }

    pub fn index(self) -> (r: usize)
        ensures
            r as nat == self.slot(),
            r < 8,
    {
        match self {
            FullSizeGeneralPurposeRegister::EAX => 0,
            FullSizeGeneralPurposeRegister::EBX => 1,
            FullSizeGeneralPurposeRegister::ECX => 2,
            FullSizeGeneralPurposeRegister::EDX => 3,
            FullSizeGeneralPurposeRegister::ESP => 4,
            FullSizeGeneralPurposeRegister::EBP => 5,
            FullSizeGeneralPurposeRegister::ESI => 6,
            FullSizeGeneralPurposeRegister::EDI => 7,
        }
    }

    /// The full-size register named by `value`, if it is one.
    pub fn try_from(value: Register) -> (r: Result<FullSizeGeneralPurposeRegister, ()>)
        ensures
            r is Ok <==> width_bits(value.width()) == 32,
            r is Ok ==> r->Ok_0 == value.parent(),
    {
        match value {
            Register::EAX => Ok(FullSizeGeneralPurposeRegister::EAX),
            Register::EBX => Ok(FullSizeGeneralPurposeRegister::EBX),
            Register::ECX => Ok(FullSizeGeneralPurposeRegister::ECX),
            Register::EDX => Ok(FullSizeGeneralPurposeRegister::EDX),
            Register::ESP => Ok(FullSizeGeneralPurposeRegister::ESP),
            Register::EBP => Ok(FullSizeGeneralPurposeRegister::EBP),
            Register::ESI => Ok(FullSizeGeneralPurposeRegister::ESI),
            Register::EDI => Ok(FullSizeGeneralPurposeRegister::EDI),
            _ => Err(()),
        }
    }
}

/// Guest registers: the full-size ones and their 16-bit and 8-bit aliases.
#[derive(Debug, Clone, Copy, PartialEq, Eq, Structural)]
pub enum Register {
    EAX,
    EBX,
    ECX,
    EDX,
    ESP,
    EBP,
    ESI,
    EDI,
    AX,
    BX,
    CX,
    DX,
    SP,
    BP,
    SI,
    DI,
    AH,
    BH,
    CH,
    DH,
    AL,
    BL,
    CL,
    DL,
}

impl Register {
    pub open spec fn width(self) -> IntType {
        match self {
            Register::EAX | Register::EBX | Register::ECX | Register::EDX | Register::ESP
            | Register::EBP | Register::ESI | Register::EDI => IntType::I32,
            Register::AX | Register::BX | Register::CX | Register::DX | Register::SP
            | Register::BP | Register::SI | Register::DI => IntType::I16,
            _ => IntType::I8,
        }
    }

    /// The full-size register whose storage this register shares.
    pub open spec fn parent(self) -> FullSizeGeneralPurposeRegister {
        match self {
            Register::EAX | Register::AX | Register::AL | Register::AH => FullSizeGeneralPurposeRegister::EAX,
            Register::EBX | Register::BX | Register::BL | Register::BH => FullSizeGeneralPurposeRegister::EBX,
            Register::ECX | Register::CX | Register::CL | Register::CH => FullSizeGeneralPurposeRegister::ECX,
            Register::EDX | Register::DX | Register::DL | Register::DH => FullSizeGeneralPurposeRegister::EDX,
            Register::ESP | Register::SP => FullSizeGeneralPurposeRegister::ESP,
            Register::EBP | Register::BP => FullSizeGeneralPurposeRegister::EBP,
            Register::ESI | Register::SI => FullSizeGeneralPurposeRegister::ESI,
            Register::EDI | Register::DI => FullSizeGeneralPurposeRegister::EDI,
        }
    }

    /// True of the 8-bit registers that name bits [15:8] of their parent.
    pub open spec fn is_high_byte(self) -> bool {
        self == Register::AH || self == Register::BH || self == Register::CH || self == Register::DH
    }

    pub fn size(self) -> (r: IntType)
        ensures
            r == self.width(),
    {
        match self {
            Register::EAX | Register::EBX | Register::ECX | Register::EDX | Register::ESP
            | Register::EBP | Register::ESI | Register::EDI => IntType::I32,
            Register::AX | Register::BX | Register::CX | Register::DX | Register::SP
            | Register::BP | Register::SI | Register::DI => IntType::I16,
            _ => IntType::I8,
        }
    }

    pub fn parent_register(self) -> (r: FullSizeGeneralPurposeRegister)
        ensures
            r == self.parent(),
    {
        match self {
            Register::EAX | Register::AX | Register::AL | Register::AH => FullSizeGeneralPurposeRegister::EAX,
            Register::EBX | Register::BX | Register::BL | Register::BH => FullSizeGeneralPurposeRegister::EBX,
            Register::ECX | Register::CX | Register::CL | Register::CH => FullSizeGeneralPurposeRegister::ECX,
            Register::EDX | Register::DX | Register::DL | Register::DH => FullSizeGeneralPurposeRegister::EDX,
            Register::ESP | Register::SP => FullSizeGeneralPurposeRegister::ESP,
            Register::EBP | Register::BP => FullSizeGeneralPurposeRegister::EBP,
            Register::ESI | Register::SI => FullSizeGeneralPurposeRegister::ESI,
            Register::EDI | Register::DI => FullSizeGeneralPurposeRegister::EDI,
        }
    }

    pub fn high_byte(self) -> (r: bool)
        ensures
            r == self.is_high_byte(),
    {
        match self {
            Register::AH | Register::BH | Register::CH | Register::DH => true,
            _ => false,
        }
    }
}

/// The value of `reg` as read from the contents `full` of its parent register.
pub open spec fn read_alias(full: u32, reg: Register) -> u64 {
    if reg.width() == IntType::I32 {
        full as u64
    } else if reg.width() == IntType::I16 {
        (full & 0xffff) as u64
    } else if reg.is_high_byte() {
        ((full >> 8u32) & 0xff) as u64
    } else {
        (full & 0xff) as u64
    }
}

/// The contents of the parent register after `v` is written to `reg`: only the bits that
/// `reg` names change.
pub open spec fn write_alias(full: u32, reg: Register, v: u64) -> u32 {
    if reg.width() == IntType::I32 {
        v as u32
    } else if reg.width() == IntType::I16 {
        (full & 0xffff_0000) | ((v as u32) & 0xffff)
    } else if reg.is_high_byte() {
        (full & 0xffff_00ff) | (((v as u32) & 0xff) << 8u32)
    } else {
        (full & 0xffff_ff00) | ((v as u32) & 0xff)
    }
}

/// The bits of the parent register that `reg` names.
pub open spec fn alias_bits(reg: Register) -> u32 {
    if reg.width() == IntType::I32 {
        0xffff_ffff
    } else if reg.width() == IntType::I16 {
        0xffff
    } else if reg.is_high_byte() {
        0xff00
    } else {
        0xff
    }
}

#[derive(Debug, Clone, Copy, PartialEq, Eq, Structural)]
pub enum SegmentRegister {
    CS,
    DS,
    ES,
    FS,
    GS,
    SS,
}

/// The flags of the guest, in the order of their slots in the context.
#[derive(Debug, Clone, Copy, PartialEq, Eq, Structural)]
pub enum Flag {
    Carry,
    Parity,
    AuxiliaryCarry,
    Zero,
    Sign,
    Overflow,
    Direction,
}

impl Flag {
    pub open spec fn slot(self) -> nat {
        match self {
            Flag::Carry => 0,
            Flag::Parity => 1,
            Flag::AuxiliaryCarry => 2,
            Flag::Zero => 3,
            Flag::Sign => 4,
            Flag::Overflow => 5,
            Flag::Direction => 6,
        }
    }

    pub fn index(self) -> (r: usize)
        ensures
            r as nat == self.slot(),
            r < 8,
    {
        match self {
            Flag::Carry => 0,
            Flag::Parity => 1,
            Flag::AuxiliaryCarry => 2,
            Flag::Zero => 3,
            Flag::Sign => 4,
            Flag::Overflow => 5,
            Flag::Direction => 6,
        }
    }
}

/// The guest state that block functions work on: one 32-bit slot per full-size register and
/// one byte per flag (zero is clear, anything else is set).
pub struct CpuContext {
    pub gp_regs: [u32; 8],
    pub flags: [u8; 8],
}

/// A memory operand: `base + index * scale + displacement`, wrapped to 32 bits.
#[derive(Debug, Clone, Copy)]
pub struct MemoryOperand {
    pub base: Option<Register>,
    pub displacement: i64,
    pub scale: u8,
    pub index: Option<Register>,
    pub size: Option<IntType>,
    pub segment: Option<SegmentRegister>,
}

#[derive(Debug, Clone, Copy)]
pub enum Operand {
    Register(Register),
    Immediate8(u8),
    Immediate16(u16),
    Immediate32(u32),
    Immediate64(u64),
    FarBranch(u16, u32),
    Memory(MemoryOperand),
}

impl Operand {
    /// An operand has a width unless it is a far branch or a memory operand without a size.
    pub open spec fn has_width(self) -> bool {
        match self {
            Operand::FarBranch(_, _) => false,
            Operand::Memory(m) => m.size is Some,
            _ => true,
        }
    }

    pub open spec fn width(self) -> IntType
        recommends
            self.has_width(),
    {
        match self {
            Operand::Register(r) => r.width(),
            Operand::Immediate8(_) => IntType::I8,
            Operand::Immediate16(_) => IntType::I16,
            Operand::Immediate32(_) => IntType::I32,
            Operand::Immediate64(_) => IntType::I64,
            Operand::Memory(m) => m.size->Some_0,
            Operand::FarBranch(_, _) => IntType::I32,
        }
    }

    pub fn size(&self) -> (r: IntType)
        requires
            self.has_width(),
        ensures
            r == self.width(),
    {
        match self {
            Operand::Register(reg) => reg.size(),
            Operand::Immediate8(_) => IntType::I8,
            Operand::Immediate16(_) => IntType::I16,
            Operand::Immediate32(_) => IntType::I32,
            Operand::Immediate64(_) => IntType::I64,
            Operand::Memory(m) => m.size.unwrap(),
            Operand::FarBranch(_, _) => IntType::I32,
        }
    }
}

/// Comparisons between two integers of one width.
#[derive(Debug, Clone, Copy, PartialEq, Eq, Structural)]
pub enum ComparisonType {
    Equal,
    NotEqual,
    UnsignedGreater,
    UnsignedGreaterOrEqual,
    UnsignedLess,
    UnsignedLessOrEqual,
    SignedGreater,
    SignedGreaterOrEqual,
    SignedLess,
    SignedLessOrEqual,
}

/// How control leaves an instruction.
#[derive(Debug)]
pub enum ControlFlow {
    NextInstruction,
    DirectJump(u32),
    IndirectJump,
    ConditionalBranch(u32, u32),
    Conditional(Vec<ControlFlow>),
    Return,
}

} // verus!
