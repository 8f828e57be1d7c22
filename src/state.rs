use vstd::prelude::*;
use vstd::arithmetic::div_mod::{lemma_mod_add_multiples_vanish, lemma_small_mod};
use crate::types::{
    alias_bits,
    mask,
    modulus,
    read_alias,
    width_bits,
    write_alias,
    Flag,
    IntType,
    Register,
};

verus! {

/// The guest state as emitted code sees it at one point of a block: the eight full-size
/// registers, the flag slots, guest memory (a byte never written reads as zero), and the
/// address control is handed to when the block is left early (`None`: it falls through).
pub struct MachineState {
    pub regs: Seq<u32>,
    pub flags: Seq<bool>,
    pub mem: Map<u32, u8>,
    pub exit: Option<u32>,
}

impl MachineState {
    pub open spec fn well_formed(self) -> bool {
        self.regs.len() == 8 && self.flags.len() == 8
    }

    pub open spec fn reg(self, r: Register) -> u64 {
        read_alias(self.regs[r.parent().slot() as int], r)
    }

    pub open spec fn with_reg(self, r: Register, v: u64) -> MachineState {
        MachineState {
            regs: self.regs.update(
                r.parent().slot() as int,
                write_alias(self.regs[r.parent().slot() as int], r, v),
            ),
            ..self
        }
    }

    pub open spec fn flag(self, f: Flag) -> bool {
        self.flags[f.slot() as int]
    }

    pub open spec fn with_flag(self, f: Flag, b: bool) -> MachineState {
        MachineState { flags: self.flags.update(f.slot() as int, b), ..self }
    }

    pub open spec fn with_exit(self, target: u32) -> MachineState {
        MachineState { exit: Some(target), ..self }
    }
}

/// A 32-bit address advanced by `k`, wrapping around.
pub open spec fn addr_plus(a: u32, k: int) -> u32 {
    ((a + k) % 0x1_0000_0000) as u32
}

pub open spec fn mem_byte(m: Map<u32, u8>, a: u32) -> u8 {
    if m.contains_key(a) {
        m[a]
    } else {
        0
    }
}

/// The little-endian value of the `n` bytes at `a`.
pub open spec fn load_le(m: Map<u32, u8>, a: u32, n: nat) -> nat
    decreases n,
{
    if n == 0 {
        0
    } else {
        (mem_byte(m, a) + 256 * load_le(m, addr_plus(a, 1), (n - 1) as nat)) as nat
    }
}

/// Memory after the low `n` bytes of `v` are written little-endian at `a`.
pub open spec fn store_le(m: Map<u32, u8>, a: u32, v: nat, n: nat) -> Map<u32, u8>
    decreases n,
{
    if n == 0 {
        m
    } else {
        store_le(m.insert(a, (v % 256) as u8), addr_plus(a, 1), v / 256, (n - 1) as nat)
    }
}

/// Number of bytes of a width.
pub open spec fn width_bytes(ty: IntType) -> nat {
    width_bits(ty) / 8
}

/// `x` reduced to the values of width `ty`.
pub open spec fn wrap(ty: IntType, x: int) -> u64 {
    (x % (modulus(ty) as int)) as u64
}

/// The two's-complement reading of `x` at width `ty`.
pub open spec fn signed(ty: IntType, x: u64) -> int {
    if (x as int) < (modulus(ty) as int) / 2 {
        x as int
    } else {
        x - modulus(ty)
    }
}

/// True where `x` is a value of width `ty`.
pub open spec fn fits(ty: IntType, x: u64) -> bool {
    (x as nat) < modulus(ty)
}

pub open spec fn pow256(n: nat) -> nat
    decreases n,
{
    if n == 0 {
        1
    } else {
        256 * pow256((n - 1) as nat)
    }
}

/// Bitwise operations keep values of a width within it.
pub proof fn lemma_bitwise_fits(ty: IntType, a: u64, b: u64)
    requires
        fits(ty, a),
        fits(ty, b),
    ensures
        fits(ty, a ^ b),
        fits(ty, a | b),
        fits(ty, a & b),
        a & mask(ty) == a,
{
    let m = mask(ty);
    assert(a <= m && b <= m);
    assert((a ^ b) <= m && (a | b) <= m && (a & b) <= m && a & m == a) by (bit_vector)
        requires
            a <= m,
            b <= m,
            m == 0xff || m == 0xffff || m == 0xffff_ffff || m == 0xffff_ffff_ffff_ffff,
    ;
}

/// Reducing to a width gives a value of that width.
pub proof fn lemma_wrap_fits(ty: IntType, x: int)
    ensures
        fits(ty, wrap(ty, x)),
        wrap(ty, x) as int == x % (modulus(ty) as int),
{
}

/// Sign bit of a width.
pub open spec fn sign_bit(ty: IntType) -> u64 {
    (modulus(ty) / 2) as u64
}

/// Setting the bits between two widths is adding their difference.
pub proof fn lemma_sext_bits(from: IntType, to: IntType, a: u64)
    requires
        fits(from, a),
        width_bits(from) <= width_bits(to),
    ensures
        (if a >= sign_bit(from) { a | (mask(to) & !mask(from)) } else { a }) == wrap(
            to,
            signed(from, a),
        ),
{
    let mf = mask(from);
    let mt = mask(to);
    assert(a | (mt & !mf) == a + (mt - mf)) by (bit_vector)
        requires
            a <= mf,
            mf <= mt,
            mf == 0xff || mf == 0xffff || mf == 0xffff_ffff || mf == 0xffff_ffff_ffff_ffff,
            mt == 0xff || mt == 0xffff || mt == 0xffff_ffff || mt == 0xffff_ffff_ffff_ffff,
    ;
    let big_f = modulus(from) as int;
    let big_t = modulus(to) as int;
    if a >= sign_bit(from) {
        lemma_mod_add_multiples_vanish(a - big_f, big_t);
        lemma_small_mod((big_t + a - big_f) as nat, big_t as nat);
    } else {
        lemma_small_mod(a as nat, big_t as nat);
    }
}

/// Masking to a width reduces to that width.
pub proof fn lemma_mask_fits(ty: IntType, a: u64)
    ensures
        fits(ty, a & mask(ty)),
        (a & mask(ty)) as int == (a as int) % (modulus(ty) as int),
{
    let m = mask(ty);
    match ty {
        IntType::I8 => {
            assert(a & 0xff <= 0xff && (a & 0xff) == a % 0x100) by (bit_vector);
        },
        IntType::I16 => {
            assert(a & 0xffff <= 0xffff && (a & 0xffff) == a % 0x1_0000) by (bit_vector);
        },
        IntType::I32 => {
            assert(a & 0xffff_ffff <= 0xffff_ffff && (a & 0xffff_ffff) == a % 0x1_0000_0000)
                by (bit_vector);
        },
        IntType::I64 => {
            assert(a & 0xffff_ffff_ffff_ffff == a) by (bit_vector);
        },
    }
}

pub proof fn lemma_load_le_bound(m: Map<u32, u8>, a: u32, n: nat)
    ensures
        load_le(m, a, n) < pow256(n),
    decreases n,
{
    if n > 0 {
        lemma_load_le_bound(m, addr_plus(a, 1), (n - 1) as nat);
        let rest = load_le(m, addr_plus(a, 1), (n - 1) as nat);
        let p = pow256((n - 1) as nat);
        let b = mem_byte(m, a) as int;
        assert(b + 256 * rest < 256 * p) by (nonlinear_arith)
            requires
                rest < p,
                0 <= b < 256,
        ;
    }
}

/// Writing a register changes only the bits of its parent that it names: the others keep
/// their values, the other registers are untouched, and the register then reads as the value
/// written, reduced to its width.
pub proof fn lemma_subregister_write_preserves(s: MachineState, r: Register, v: u64)
    requires
        s.well_formed(),
    ensures
        ({
            let full = s.regs[r.parent().slot() as int];
            let after = s.with_reg(r, v).regs[r.parent().slot() as int];
            after & !alias_bits(r) == full & !alias_bits(r)
        }),
        s.with_reg(r, v).reg(r) == v & mask(r.width()),
        forall|i: int| 0 <= i < 8 && i != r.parent().slot() ==> s.with_reg(r, v).regs[i] == s.regs[i],
        s.with_reg(r, v).flags == s.flags,
        s.with_reg(r, v).mem == s.mem,
{
    let full = s.regs[r.parent().slot() as int];
    assert(((full & 0xffff_0000) | ((v as u32) & 0xffff)) & !0xffffu32 == full & !0xffffu32
        && ((full & 0xffff_00ff) | (((v as u32) & 0xff) << 8u32)) & !0xff00u32 == full & !0xff00u32
        && ((full & 0xffff_ff00) | ((v as u32) & 0xff)) & !0xffu32 == full & !0xffu32
        && (v as u32) & !0xffff_ffffu32 == full & !0xffff_ffffu32) by (bit_vector);
    assert((((((full & 0xffff_0000) | ((v as u32) & 0xffff)) & 0xffff) as u64) == v & 0xffff)
        && (((((((full & 0xffff_00ff) | (((v as u32) & 0xff) << 8u32)) >> 8u32) & 0xff) as u64)
        == v & 0xff)) && (((((full & 0xffff_ff00) | ((v as u32) & 0xff)) & 0xff) as u64) == v
        & 0xff) && ((((v as u32) as u64) == v & 0xffff_ffff))) by (bit_vector);
}

} // verus!
