//! Bit fields and immediates of a 32-bit RISC-V instruction word.
use vstd::prelude::*;

verus! {

/// Primary opcode, bits 6:0.
pub open spec fn opcode_of(inst: u32) -> u32 {
    inst & 0x7f
}

/// Destination register, bits 11:7.
pub open spec fn rd_of(inst: u32) -> u8 {
    ((inst >> 7u32) & 0x1f) as u8
}

/// funct3, bits 14:12.
pub open spec fn funct3_of(inst: u32) -> u32 {
    (inst >> 12u32) & 0x7
}

/// First source register, bits 19:15.
pub open spec fn rs1_of(inst: u32) -> u8 {
    ((inst >> 15u32) & 0x1f) as u8
}

/// Second source register, bits 24:20.
pub open spec fn rs2_of(inst: u32) -> u8 {
    ((inst >> 20u32) & 0x1f) as u8
}

/// funct7, bits 31:25.
pub open spec fn funct7_of(inst: u32) -> u32 {
    inst >> 25u32
}

/// funct6, bits 31:26 (selects the RV64 immediate shift kind).
pub open spec fn funct6_of(inst: u32) -> u32 {
    inst >> 26u32
}

/// The two's complement 64-bit pattern of a value in `i64` range.
pub open spec fn to_u64(v: int) -> u64 {
    if v >= 0 {
        v as u64
    } else {
        (v + 0x1_0000_0000_0000_0000) as u64
    }
}

/// The signed value of a `width`-bit field holding `raw`, given `half = 2^(width-1)`.
pub open spec fn signed_field(raw: int, half: int) -> int {
    if raw >= half {
        raw - 2 * half
    } else {
        raw
    }
}

/// Raw 12-bit I-type immediate: `inst[31:20]`.
pub open spec fn raw_i(inst: u32) -> u32 {
    inst >> 20u32
}

/// Raw 12-bit S-type immediate: `inst[31:25] ++ inst[11:7]`.
pub open spec fn raw_s(inst: u32) -> u32 {
    ((inst >> 25u32) << 5u32) | ((inst >> 7u32) & 0x1f)
}

/// Raw 13-bit B-type immediate: `inst[31] ++ inst[7] ++ inst[30:25] ++ inst[11:8] ++ 0`.
pub open spec fn raw_b(inst: u32) -> u32 {
    (((inst >> 31u32) & 1) << 12u32) | (((inst >> 7u32) & 1) << 11u32) | (((inst >> 25u32)
        & 0x3f) << 5u32) | (((inst >> 8u32) & 0xf) << 1u32)
}

/// Raw 32-bit U-type immediate: `inst[31:12] ++ 0^12`.
pub open spec fn raw_u(inst: u32) -> u32 {
    inst & 0xffff_f000
}

/// Raw 21-bit J-type immediate: `inst[31] ++ inst[19:12] ++ inst[20] ++ inst[30:21] ++ 0`.
pub open spec fn raw_j(inst: u32) -> u32 {
    (((inst >> 31u32) & 1) << 20u32) | (((inst >> 12u32) & 0xff) << 12u32) | (((inst >> 20u32)
        & 1) << 11u32) | (((inst >> 21u32) & 0x3ff) << 1u32)
}

/// The signed value of each immediate layout.
pub open spec fn imm_i_val(inst: u32) -> int {
    signed_field(raw_i(inst) as int, 0x800)
}

pub open spec fn imm_s_val(inst: u32) -> int {
    signed_field(raw_s(inst) as int, 0x800)
}

pub open spec fn imm_b_val(inst: u32) -> int {
    signed_field(raw_b(inst) as int, 0x1000)
}

pub open spec fn imm_u_val(inst: u32) -> int {
    signed_field(raw_u(inst) as int, 0x8000_0000)
}

pub open spec fn imm_j_val(inst: u32) -> int {
    signed_field(raw_j(inst) as int, 0x10_0000)
}

/// RV64 shift amount of the immediate shifts, `inst[25:20]`.
pub open spec fn shamt64_of(inst: u32) -> u64 {
    ((inst >> 20u32) & 0x3f) as u64
}

pub proof fn lemma_field_bounds(inst: u32)
    ensures
        raw_i(inst) < 0x1000,
        raw_s(inst) < 0x1000,
        raw_b(inst) < 0x2000,
        raw_j(inst) < 0x20_0000,
        rd_of(inst) < 32,
        rs1_of(inst) < 32,
        rs2_of(inst) < 32,
        funct3_of(inst) < 8,
        opcode_of(inst) < 128,
        shamt64_of(inst) < 64,
{
    assert(inst >> 20u32 < 0x1000) by (bit_vector);
    assert(((inst >> 25u32) << 5u32) | ((inst >> 7u32) & 0x1f) < 0x1000) by (bit_vector);
    assert((((inst >> 31u32) & 1) << 12u32) | (((inst >> 7u32) & 1) << 11u32) | (((inst
        >> 25u32) & 0x3f) << 5u32) | (((inst >> 8u32) & 0xf) << 1u32) < 0x2000) by (bit_vector);
    assert((((inst >> 31u32) & 1) << 20u32) | (((inst >> 12u32) & 0xff) << 12u32) | (((inst
        >> 20u32) & 1) << 11u32) | (((inst >> 21u32) & 0x3ff) << 1u32) < 0x20_0000)
        by (bit_vector);
    assert((inst >> 7u32) & 0x1f < 32) by (bit_vector);
    assert((inst >> 15u32) & 0x1f < 32) by (bit_vector);
    assert((inst >> 20u32) & 0x1f < 32) by (bit_vector);
    assert((inst >> 12u32) & 0x7 < 8) by (bit_vector);
    assert(inst & 0x7f < 128) by (bit_vector);
    assert((inst >> 20u32) & 0x3f < 64) by (bit_vector);
}

/// Sign-extends a `2*half`-bit field to 64 bits.
pub fn sign_extend(raw: u32, half: u32) -> (r: u64)
    requires
        half == 0x80 || half == 0x8000 || half == 0x800 || half == 0x1000 || half == 0x10_0000 || half == 0x8000_0000,
        (raw as int) < 2 * half,
    ensures
        r == to_u64(signed_field(raw as int, half as int)),
{
    if raw >= half {
        let ext: u64 = 0xffff_ffff_ffff_ffff - 2 * (half as u64) + 1;
        raw as u64 + ext
    } else {
        raw as u64
    }
}

pub fn opcode(inst: u32) -> (r: u32)
    ensures
        r == opcode_of(inst),
        r < 128,
{
    proof {
        lemma_field_bounds(inst);
    }
    inst & 0x7f
}

pub fn rd(inst: u32) -> (r: u8)
    ensures
        r == rd_of(inst),
        r < 32,
{
    proof {
        lemma_field_bounds(inst);
    }
    ((inst >> 7u32) & 0x1f) as u8
}

pub fn funct3(inst: u32) -> (r: u32)
    ensures
        r == funct3_of(inst),
        r < 8,
{
    proof {
        lemma_field_bounds(inst);
    }
    (inst >> 12u32) & 0x7
}

pub fn rs1(inst: u32) -> (r: u8)
    ensures
        r == rs1_of(inst),
        r < 32,
{
    proof {
        lemma_field_bounds(inst);
    }
    ((inst >> 15u32) & 0x1f) as u8
}

pub fn rs2(inst: u32) -> (r: u8)
    ensures
        r == rs2_of(inst),
        r < 32,
{
    proof {
        lemma_field_bounds(inst);
    }
    ((inst >> 20u32) & 0x1f) as u8
}

pub fn funct7(inst: u32) -> (r: u32)
    ensures
        r == funct7_of(inst),
{
    inst >> 25u32
}

pub fn funct6(inst: u32) -> (r: u32)
    ensures
        r == funct6_of(inst),
{
    inst >> 26u32
}

pub fn shift64_i(inst: u32) -> (r: u64)
    ensures
        r == shamt64_of(inst),
        r < 64,
{
    proof {
        lemma_field_bounds(inst);
    }
    ((inst >> 20u32) & 0x3f) as u64
}

pub fn imm_i(inst: u32) -> (r: u64)
    ensures
        r == to_u64(imm_i_val(inst)),
{
    proof {
        lemma_field_bounds(inst);
    }
    sign_extend(inst >> 20u32, 0x800)
}

pub fn imm_s(inst: u32) -> (r: u64)
    ensures
        r == to_u64(imm_s_val(inst)),
{
    proof {
        lemma_field_bounds(inst);
    }
    sign_extend(((inst >> 25u32) << 5u32) | ((inst >> 7u32) & 0x1f), 0x800)
}

pub fn imm_b(inst: u32) -> (r: u64)
    ensures
        r == to_u64(imm_b_val(inst)),
{
    proof {
        lemma_field_bounds(inst);
    }
    let raw = (((inst >> 31u32) & 1) << 12u32) | (((inst >> 7u32) & 1) << 11u32) | (((inst
        >> 25u32) & 0x3f) << 5u32) | (((inst >> 8u32) & 0xf) << 1u32);
    sign_extend(raw, 0x1000)
}

pub fn imm_u(inst: u32) -> (r: u64)
    ensures
        r == to_u64(imm_u_val(inst)),
{
    sign_extend(inst & 0xffff_f000, 0x8000_0000)
}

pub fn imm_j(inst: u32) -> (r: u64)
    ensures
        r == to_u64(imm_j_val(inst)),
{
    proof {
        lemma_field_bounds(inst);
    }
    let raw = (((inst >> 31u32) & 1) << 20u32) | (((inst >> 12u32) & 0xff) << 12u32) | (((inst
        >> 20u32) & 1) << 11u32) | (((inst >> 21u32) & 0x3ff) << 1u32);
    sign_extend(raw, 0x10_0000)
}

/// The `bits`-bit two's complement field of `imm`, given `span = 2^bits`.
pub open spec fn field_of(imm: int, span: int) -> u32 {
    (if imm < 0 { imm + span } else { imm }) as u32
}

/// An I-type word whose immediate is `imm`; its other fields come from `rest`.
pub open spec fn enc_i(imm: int, rest: u32) -> u32 {
    (field_of(imm, 0x1000) << 20u32) | (rest & 0xf_ffff)
}

/// An S-type word whose immediate is `imm`.
pub open spec fn enc_s(imm: int, rest: u32) -> u32 {
    let f = field_of(imm, 0x1000);
    ((f >> 5u32) << 25u32) | ((f & 0x1f) << 7u32) | (rest & 0x01ff_f07f)
}

/// A B-type word whose (even) immediate is `imm`.
pub open spec fn enc_b(imm: int, rest: u32) -> u32 {
    let f = field_of(imm, 0x2000);
    (((f >> 12u32) & 1) << 31u32) | (((f >> 5u32) & 0x3f) << 25u32) | (((f >> 1u32) & 0xf)
        << 8u32) | (((f >> 11u32) & 1) << 7u32) | (rest & 0x01ff_f07f)
}

/// A U-type word whose immediate (a multiple of 4096) is `imm`.
pub open spec fn enc_u(imm: int, rest: u32) -> u32 {
    field_of(imm, 0x1_0000_0000) | (rest & 0xfff)
}

/// A J-type word whose (even) immediate is `imm`.
pub open spec fn enc_j(imm: int, rest: u32) -> u32 {
    let f = field_of(imm, 0x20_0000);
    (((f >> 20u32) & 1) << 31u32) | (((f >> 1u32) & 0x3ff) << 21u32) | (((f >> 11u32) & 1)
        << 20u32) | (((f >> 12u32) & 0xff) << 12u32) | (rest & 0xfff)
}

/// Immediate extraction inverts encoding: a word built with immediate `imm`
/// in any of the five layouts decodes to `imm`, sign-extended to 64 bits.
pub proof fn lemma_immediate_round_trip(imm: int, rest: u32)
    ensures
        -0x800 <= imm < 0x800 ==> imm_i_val(enc_i(imm, rest)) == imm && imm_s_val(
            enc_s(imm, rest),
        ) == imm,
        -0x1000 <= imm < 0x1000 && imm % 2 == 0 ==> imm_b_val(enc_b(imm, rest)) == imm,
        -0x8000_0000 <= imm < 0x8000_0000 && imm % 0x1000 == 0 ==> imm_u_val(enc_u(imm, rest))
            == imm,
        -0x10_0000 <= imm < 0x10_0000 && imm % 2 == 0 ==> imm_j_val(enc_j(imm, rest)) == imm,
{
    if -0x800 <= imm < 0x800 {
        let f = field_of(imm, 0x1000);
        assert(((f << 20u32) | (rest & 0xf_ffff)) >> 20u32 == f) by (bit_vector)
            requires
                f < 0x1000,
        ;
        assert((((((f >> 5u32) << 25u32) | ((f & 0x1f) << 7u32) | (rest & 0x01ff_f07f))
            >> 25u32) << 5u32) | (((((f >> 5u32) << 25u32) | ((f & 0x1f) << 7u32) | (rest
            & 0x01ff_f07f)) >> 7u32) & 0x1f) == f) by (bit_vector)
            requires
                f < 0x1000,
        ;
    }
    if -0x1000 <= imm < 0x1000 && imm % 2 == 0 {
        let f = field_of(imm, 0x2000);
        assert(f % 2 == 0);
        let w = enc_b(imm, rest);
        assert((((w >> 31u32) & 1) << 12u32) | (((w >> 7u32) & 1) << 11u32) | (((w >> 25u32)
            & 0x3f) << 5u32) | (((w >> 8u32) & 0xf) << 1u32) == f) by (bit_vector)
            requires
                f < 0x2000,
                f % 2 == 0,
                w == (((f >> 12u32) & 1) << 31u32) | (((f >> 5u32) & 0x3f) << 25u32) | (((f
                    >> 1u32) & 0xf) << 8u32) | (((f >> 11u32) & 1) << 7u32) | (rest
                    & 0x01ff_f07f),
        ;
    }
    if -0x8000_0000 <= imm < 0x8000_0000 && imm % 0x1000 == 0 {
        let f = field_of(imm, 0x1_0000_0000);
        assert(f % 0x1000 == 0);
        assert((f | (rest & 0xfff)) & 0xffff_f000 == f) by (bit_vector)
            requires
                f % 0x1000 == 0,
        ;
    }
    if -0x10_0000 <= imm < 0x10_0000 && imm % 2 == 0 {
        let f = field_of(imm, 0x20_0000);
        assert(f % 2 == 0);
        let w = enc_j(imm, rest);
        assert((((w >> 31u32) & 1) << 20u32) | (((w >> 12u32) & 0xff) << 12u32) | (((w
            >> 20u32) & 1) << 11u32) | (((w >> 21u32) & 0x3ff) << 1u32) == f) by (bit_vector)
            requires
                f < 0x20_0000,
                f % 2 == 0,
                w == (((f >> 20u32) & 1) << 31u32) | (((f >> 1u32) & 0x3ff) << 21u32) | (((f
                    >> 11u32) & 1) << 20u32) | (((f >> 12u32) & 0xff) << 12u32) | (rest
                    & 0xfff),
        ;
    }
}

} // verus!
