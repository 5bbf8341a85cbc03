//! Decoding a 32-bit instruction word into the uniform control record.
use vstd::prelude::*;
use crate::error::SimError;
use crate::fields::{
    funct3, funct3_of, funct6, funct6_of, funct7, funct7_of, imm_b, imm_b_val, imm_i, imm_i_val,
    imm_j, imm_j_val, imm_s, imm_s_val, imm_u, imm_u_val, opcode, opcode_of, raw_i, rd, rd_of,
    rs1, rs1_of, rs2, rs2_of, shamt64_of, shift64_i, to_u64,
};
use crate::insts::{
    alu_src_of, is_cond_branch, is_csr, is_jump, is_load, is_reg_reg, is_store, sext_of,
    writes_rd, Inst64, SextType,
};

verus! {

/// The decoded form of one instruction, as latched in IF/ID.
#[derive(PartialEq, Eq, Structural, Clone, Copy, Debug)]
pub struct InternalFetchDecode {
    /// Where the instruction was fetched.
    pub pc: u64,
    pub alu_op: Inst64,
    /// The immediate layout.
    pub sext: SextType,
    /// The ALU's second operand is `imm` rather than `rs2`'s value.
    pub alu_src: bool,
    pub mem_read: bool,
    pub mem_write: bool,
    /// May redirect fetch (conditional branches and jumps).
    pub branch: bool,
    /// Redirects whenever it executes (jumps).
    pub pc_src: bool,
    /// `rd` receives the memory result rather than the ALU result.
    pub mem_to_reg: bool,
    /// Commits a value to `rd` (never set for `x0`).
    pub reg_write: bool,
    pub rs1: u8,
    pub rs2: u8,
    /// Unused by RV64IM; always 0.
    pub rs3: u8,
    pub rd: u8,
    /// The immediate, sign-extended to 64 bits.
    pub imm: u64,
}

pub const OPC_LOAD: u32 = 0x03;
pub const OPC_OP_IMM: u32 = 0x13;
pub const OPC_AUIPC: u32 = 0x17;
pub const OPC_OP_IMM_32: u32 = 0x1b;
pub const OPC_STORE: u32 = 0x23;
pub const OPC_OP: u32 = 0x33;
pub const OPC_LUI: u32 = 0x37;
pub const OPC_OP_32: u32 = 0x3b;
pub const OPC_BRANCH: u32 = 0x63;
pub const OPC_JALR: u32 = 0x67;
pub const OPC_JAL: u32 = 0x6f;
pub const OPC_SYSTEM: u32 = 0x73;

pub open spec fn load_op(f3: u32) -> Option<Inst64> {
    if f3 == 0 { Some(Inst64::Lb) }
    else if f3 == 1 { Some(Inst64::Lh) }
    else if f3 == 2 { Some(Inst64::Lw) }
    else if f3 == 3 { Some(Inst64::Ld) }
    else if f3 == 4 { Some(Inst64::Lbu) }
    else if f3 == 5 { Some(Inst64::Lhu) }
    else if f3 == 6 { Some(Inst64::Lwu) }
    else { None }
}

pub open spec fn op_imm_op(f3: u32, f6: u32) -> Option<Inst64> {
    if f3 == 0 { Some(Inst64::Addi) }
    else if f3 == 1 && f6 == 0 { Some(Inst64::Slli) }
    else if f3 == 2 { Some(Inst64::Slti) }
    else if f3 == 3 { Some(Inst64::Sltiu) }
    else if f3 == 4 { Some(Inst64::Xori) }
    else if f3 == 5 && f6 == 0 { Some(Inst64::Srli) }
    else if f3 == 5 && f6 == 0x10 { Some(Inst64::Srai) }
    else if f3 == 6 { Some(Inst64::Ori) }
    else if f3 == 7 { Some(Inst64::Andi) }
    else { None }
}

pub open spec fn op_imm_32_op(f3: u32, f7: u32) -> Option<Inst64> {
    if f3 == 0 { Some(Inst64::Addiw) }
    else if f3 == 1 && f7 == 0 { Some(Inst64::Slliw) }
    else if f3 == 5 && f7 == 0 { Some(Inst64::Srliw) }
    else if f3 == 5 && f7 == 0x20 { Some(Inst64::Sraiw) }
    else { None }
}

pub open spec fn store_op(f3: u32) -> Option<Inst64> {
    if f3 == 0 { Some(Inst64::Sb) }
    else if f3 == 1 { Some(Inst64::Sh) }
    else if f3 == 2 { Some(Inst64::Sw) }
    else if f3 == 3 { Some(Inst64::Sd) }
    else { None }
}

pub open spec fn op_op(f3: u32, f7: u32) -> Option<Inst64> {
    if f7 == 0 {
        if f3 == 0 { Some(Inst64::Add) }
        else if f3 == 1 { Some(Inst64::Sll) }
        else if f3 == 2 { Some(Inst64::Slt) }
        else if f3 == 3 { Some(Inst64::Sltu) }
        else if f3 == 4 { Some(Inst64::Xor) }
        else if f3 == 5 { Some(Inst64::Srl) }
        else if f3 == 6 { Some(Inst64::Or) }
        else if f3 == 7 { Some(Inst64::And) }
        else { None }
    } else if f7 == 1 {
        if f3 == 0 { Some(Inst64::Mul) }
        else if f3 == 1 { Some(Inst64::Mulh) }
        else if f3 == 2 { Some(Inst64::Mulhsu) }
        else if f3 == 3 { Some(Inst64::Mulhu) }
        else if f3 == 4 { Some(Inst64::Div) }
        else if f3 == 5 { Some(Inst64::Divu) }
        else if f3 == 6 { Some(Inst64::Rem) }
        else if f3 == 7 { Some(Inst64::Remu) }
        else { None }
    } else if f7 == 0x20 {
        if f3 == 0 { Some(Inst64::Sub) }
        else if f3 == 5 { Some(Inst64::Sra) }
        else { None }
    } else {
        None
    }
}

/// OP_32: the word-width register-register operations.
pub open spec fn op_32_op(f3: u32, f7: u32) -> Option<Inst64> {
    if f7 == 0 {
        if f3 == 0 { Some(Inst64::Addw) }
        else if f3 == 1 { Some(Inst64::Sllw) }
        else if f3 == 5 { Some(Inst64::Srlw) }
        else { None }
    } else if f7 == 1 {
        if f3 == 0 { Some(Inst64::Mulw) }
        else if f3 == 4 { Some(Inst64::Divw) }
        else if f3 == 5 { Some(Inst64::Divuw) }
        else if f3 == 6 { Some(Inst64::Remw) }
        else if f3 == 7 { Some(Inst64::Remuw) }
        else { None }
    } else if f7 == 0x20 {
        if f3 == 0 { Some(Inst64::Subw) }
        else if f3 == 5 { Some(Inst64::Sraw) }
        else { None }
    } else {
        None
    }
}

pub open spec fn branch_op(f3: u32) -> Option<Inst64> {
    if f3 == 0 { Some(Inst64::Beq) }
    else if f3 == 1 { Some(Inst64::Bne) }
    else if f3 == 4 { Some(Inst64::Blt) }
    else if f3 == 5 { Some(Inst64::Bge) }
    else if f3 == 6 { Some(Inst64::Bltu) }
    else if f3 == 7 { Some(Inst64::Bgeu) }
    else { None }
}

pub open spec fn system_op(f3: u32, csr: u32) -> Option<Inst64> {
    if f3 == 0 {
        if csr == 0 { Some(Inst64::Ecall) }
        else if csr == 1 { Some(Inst64::Ebreak) }
        else { None }
    }
    else if f3 == 1 { Some(Inst64::Csrrw) }
    else if f3 == 2 { Some(Inst64::Csrrs) }
    else if f3 == 3 { Some(Inst64::Csrrc) }
    else if f3 == 5 { Some(Inst64::Csrrwi) }
    else if f3 == 6 { Some(Inst64::Csrrsi) }
    else if f3 == 7 { Some(Inst64::Csrrci) }
    else { None }
}

/// The operation an instruction word encodes, or `None` when it is not part of
/// the supported subset (unknown or reserved opcode, unknown funct field).
pub open spec fn op_of(inst: u32) -> Option<Inst64> {
    let opc = opcode_of(inst);
    let f3 = funct3_of(inst);
    if opc == OPC_LOAD { load_op(f3) }
    else if opc == OPC_OP_IMM { op_imm_op(f3, funct6_of(inst)) }
    else if opc == OPC_AUIPC { Some(Inst64::Auipc) }
    else if opc == OPC_OP_IMM_32 { op_imm_32_op(f3, funct7_of(inst)) }
    else if opc == OPC_STORE { store_op(f3) }
    else if opc == OPC_OP { op_op(f3, funct7_of(inst)) }
    else if opc == OPC_LUI { Some(Inst64::Lui) }
    else if opc == OPC_OP_32 { op_32_op(f3, funct7_of(inst)) }
    else if opc == OPC_BRANCH { branch_op(f3) }
    else if opc == OPC_JALR { if f3 == 0 { Some(Inst64::Jalr) } else { None } }
    else if opc == OPC_JAL { Some(Inst64::Jal) }
    else if opc == OPC_SYSTEM { system_op(f3, raw_i(inst)) }
    else { None }
}

/// The 64-bit immediate an operation takes from its word.
pub open spec fn imm_of(op: Inst64, inst: u32) -> u64 {
    if op == Inst64::Slli || op == Inst64::Srli || op == Inst64::Srai {
        shamt64_of(inst)
    } else if op == Inst64::Slliw || op == Inst64::Srliw || op == Inst64::Sraiw {
        rs2_of(inst) as u64
    } else {
        match sext_of(op) {
            SextType::I => to_u64(imm_i_val(inst)),
            SextType::S => to_u64(imm_s_val(inst)),
            SextType::B => to_u64(imm_b_val(inst)),
            SextType::U => to_u64(imm_u_val(inst)),
            SextType::J => to_u64(imm_j_val(inst)),
            SextType::NoImm => 0,
        }
    }
}

pub open spec fn reads_rs1(op: Inst64) -> bool {
    op != Inst64::Lui && op != Inst64::Auipc && op != Inst64::Jal
}

pub open spec fn reads_rs2(op: Inst64) -> bool {
    is_reg_reg(op) || is_store(op) || is_cond_branch(op)
}

pub open spec fn names_rd(op: Inst64) -> bool {
    !is_store(op) && !is_cond_branch(op)
}

/// The control record of word `inst` fetched at `pc`, once its operation is known.
pub open spec fn record_of(pc: u64, inst: u32, op: Inst64) -> InternalFetchDecode {
    InternalFetchDecode {
        pc,
        alu_op: op,
        sext: sext_of(op),
        alu_src: alu_src_of(op),
        mem_read: is_load(op),
        mem_write: is_store(op),
        branch: is_cond_branch(op) || is_jump(op),
        pc_src: is_jump(op),
        mem_to_reg: is_load(op),
        reg_write: writes_rd(op) && rd_of(inst) != 0,
        rs1: if reads_rs1(op) { rs1_of(inst) } else { 0 },
        rs2: if reads_rs2(op) { rs2_of(inst) } else { 0 },
        rs3: 0,
        rd: if names_rd(op) { rd_of(inst) } else { 0 },
        imm: imm_of(op, inst),
    }
}

/// The result of decoding `inst` fetched at `pc`.
pub open spec fn decode_spec(pc: u64, inst: u32) -> Result<InternalFetchDecode, SimError> {
    match op_of(inst) {
        Some(op) => Ok(record_of(pc, inst, op)),
        None => Err(SimError::Decode { inst }),
    }
}

/// What a class decoder owes: the record at pc 0 when its table knows the
/// word, a decode error otherwise.
pub open spec fn class_result(inst: u32, op: Option<Inst64>) -> Result<InternalFetchDecode, SimError> {
    match op {
        Some(o) => Ok(record_of(0, inst, o)),
        None => Err(SimError::Decode { inst }),
    }
}

} // verus!

verus! {

/// Decodes one word fetched at `pc`.
///
/// Dispatch is by primary opcode; LOAD_FP, STORE_FP, AMO, OP_FP, the fused
/// multiply-add classes, MISC_MEM and unknown opcodes are decode errors.
pub fn inst_interpret(pc: u64, inst: u32) -> (r: Result<InternalFetchDecode, SimError>)
    ensures
        r == decode_spec(pc, inst),
        r is Ok ==> r->Ok_0.pc == pc,
{
    let opc = opcode(inst);
    let decoded = match opc {
        0x03 => decode_load(inst),
        0x07 => decode_load_fp(inst),
        0x0f => decode_misc_mem(inst),
        0x13 => decode_op_imm(inst),
        0x17 => decode_op_auipc(inst),
        0x1b => decode_op_imm_32(inst),
        0x23 => decode_store(inst),
        0x27 => decode_store_fp(inst),
        0x2f => decode_amo(inst),
        0x33 => decode_op(inst),
        0x37 => decode_lui(inst),
        0x3b => decode_op_32(inst),
        0x43 => decode_madd(inst),
        0x47 => decode_msub(inst),
        0x4b => decode_nmsub(inst),
        0x4f => decode_nmadd(inst),
        0x53 => decode_op_fp(inst),
        0x63 => decode_branch(inst),
        0x67 => decode_jalr(inst),
        0x6f => decode_jal(inst),
        0x73 => decode_system(inst),
        _ => Err(SimError::Decode { inst }),
    };
    match decoded {
        Ok(mut d) => {
            d.pc = pc;
            Ok(d)
        },
        Err(e) => Err(e),
    }
}

/// 0000011 LOAD: I type.
fn decode_load(inst: u32) -> (r: Result<InternalFetchDecode, SimError>)
    ensures
        r == class_result(inst, load_op(funct3_of(inst))),
{
    let alu_op = match funct3(inst) {
        0 => Inst64::Lb,
        1 => Inst64::Lh,
        2 => Inst64::Lw,
        3 => Inst64::Ld,
        4 => Inst64::Lbu,
        5 => Inst64::Lhu,
        6 => Inst64::Lwu,
        _ => return Err(SimError::Decode { inst }),
    };
    let rd = rd(inst);
    Ok(InternalFetchDecode {
        pc: 0,
        alu_op,
        sext: SextType::I,
        alu_src: true,
        mem_read: true,
        mem_write: false,
        branch: false,
        pc_src: false,
        mem_to_reg: true,
        reg_write: rd != 0,
        rs1: rs1(inst),
        rs2: 0,
        rs3: 0,
        rd,
        imm: imm_i(inst),
    })
}

/// 0000111 LOAD_FP: reserved.
fn decode_load_fp(inst: u32) -> (r: Result<InternalFetchDecode, SimError>)
    ensures
        r == Err::<InternalFetchDecode, SimError>(SimError::Decode { inst }),
{
    Err(SimError::Decode { inst })
}

/// 0001111 MISC_MEM: reserved.
fn decode_misc_mem(inst: u32) -> (r: Result<InternalFetchDecode, SimError>)
    ensures
        r == Err::<InternalFetchDecode, SimError>(SimError::Decode { inst }),
{
    Err(SimError::Decode { inst })
}

/// 0010011 OP_IMM: I type; RV64 shifts take a 6-bit amount and funct6.
fn decode_op_imm(inst: u32) -> (r: Result<InternalFetchDecode, SimError>)
    ensures
        r == class_result(inst, op_imm_op(funct3_of(inst), funct6_of(inst))),
{
    let f3 = funct3(inst);
    let alu_op = match f3 {
        0 => Inst64::Addi,
        1 => match funct6(inst) {
            0 => Inst64::Slli,
            _ => return Err(SimError::Decode { inst }),
        },
        2 => Inst64::Slti,
        3 => Inst64::Sltiu,
        4 => Inst64::Xori,
        5 => match funct6(inst) {
            0 => Inst64::Srli,
            0x10 => Inst64::Srai,
            _ => return Err(SimError::Decode { inst }),
        },
        6 => Inst64::Ori,
        7 => Inst64::Andi,
        _ => return Err(SimError::Decode { inst }),
    };
    let imm = if f3 == 1 || f3 == 5 {
        shift64_i(inst)
    } else {
        imm_i(inst)
    };
    let rd = rd(inst);
    Ok(InternalFetchDecode {
        pc: 0,
        alu_op,
        sext: SextType::I,
        alu_src: true,
        mem_read: false,
        mem_write: false,
        branch: false,
        pc_src: false,
        mem_to_reg: false,
        reg_write: rd != 0,
        rs1: rs1(inst),
        rs2: 0,
        rs3: 0,
        rd,
        imm,
    })
}

/// 0010111 AUIPC: U type.
fn decode_op_auipc(inst: u32) -> (r: Result<InternalFetchDecode, SimError>)
    ensures
        r == class_result(inst, Some(Inst64::Auipc)),
{
    let rd = rd(inst);
    Ok(InternalFetchDecode {
        pc: 0,
        alu_op: Inst64::Auipc,
        sext: SextType::U,
        alu_src: true,
        mem_read: false,
        mem_write: false,
        branch: false,
        pc_src: false,
        mem_to_reg: false,
        reg_write: rd != 0,
        rs1: 0,
        rs2: 0,
        rs3: 0,
        rd,
        imm: imm_u(inst),
    })
}

/// 0011011 OP_IMM_32: word-width immediates; shifts take a 5-bit amount.
fn decode_op_imm_32(inst: u32) -> (r: Result<InternalFetchDecode, SimError>)
    ensures
        r == class_result(inst, op_imm_32_op(funct3_of(inst), funct7_of(inst))),
{
    let f3 = funct3(inst);
    let alu_op = match f3 {
        0 => Inst64::Addiw,
        1 => match funct7(inst) {
            0 => Inst64::Slliw,
            _ => return Err(SimError::Decode { inst }),
        },
        5 => match funct7(inst) {
            0 => Inst64::Srliw,
            0x20 => Inst64::Sraiw,
            _ => return Err(SimError::Decode { inst }),
        },
        _ => return Err(SimError::Decode { inst }),
    };
    let imm = if f3 == 0 {
        imm_i(inst)
    } else {
        rs2(inst) as u64
    };
    let rd = rd(inst);
    Ok(InternalFetchDecode {
        pc: 0,
        alu_op,
        sext: SextType::I,
        alu_src: true,
        mem_read: false,
        mem_write: false,
        branch: false,
        pc_src: false,
        mem_to_reg: false,
        reg_write: rd != 0,
        rs1: rs1(inst),
        rs2: 0,
        rs3: 0,
        rd,
        imm,
    })
}

/// 0100011 STORE: S type.
fn decode_store(inst: u32) -> (r: Result<InternalFetchDecode, SimError>)
    ensures
        r == class_result(inst, store_op(funct3_of(inst))),
{
    let alu_op = match funct3(inst) {
        0 => Inst64::Sb,
        1 => Inst64::Sh,
        2 => Inst64::Sw,
        3 => Inst64::Sd,
        _ => return Err(SimError::Decode { inst }),
    };
    Ok(InternalFetchDecode {
        pc: 0,
        alu_op,
        sext: SextType::S,
        alu_src: true,
        mem_read: false,
        mem_write: true,
        branch: false,
        pc_src: false,
        mem_to_reg: false,
        reg_write: false,
        rs1: rs1(inst),
        rs2: rs2(inst),
        rs3: 0,
        rd: 0,
        imm: imm_s(inst),
    })
}

/// 0100111 STORE_FP: reserved.
fn decode_store_fp(inst: u32) -> (r: Result<InternalFetchDecode, SimError>)
    ensures
        r == Err::<InternalFetchDecode, SimError>(SimError::Decode { inst }),
{
    Err(SimError::Decode { inst })
}

/// 0101111 AMO: reserved.
fn decode_amo(inst: u32) -> (r: Result<InternalFetchDecode, SimError>)
    ensures
        r == Err::<InternalFetchDecode, SimError>(SimError::Decode { inst }),
{
    Err(SimError::Decode { inst })
}

/// The record shared by the register-register classes OP and OP_32.
fn reg_reg_record(inst: u32, alu_op: Inst64) -> (r: InternalFetchDecode)
    requires
        is_reg_reg(alu_op),
    ensures
        r == record_of(0, inst, alu_op),
{
    let rd = rd(inst);
    InternalFetchDecode {
        pc: 0,
        alu_op,
        sext: SextType::NoImm,
        alu_src: false,
        mem_read: false,
        mem_write: false,
        branch: false,
        pc_src: false,
        mem_to_reg: false,
        reg_write: rd != 0,
        rs1: rs1(inst),
        rs2: rs2(inst),
        rs3: 0,
        rd,
        imm: 0,
    }
}

/// 0110011 OP: R type, base integer and M extension.
fn decode_op(inst: u32) -> (r: Result<InternalFetchDecode, SimError>)
    ensures
        r == class_result(inst, op_op(funct3_of(inst), funct7_of(inst))),
{
    let f3 = funct3(inst);
    let f7 = funct7(inst);
    let alu_op = match f7 {
        0 => match f3 {
            0 => Inst64::Add,
            1 => Inst64::Sll,
            2 => Inst64::Slt,
            3 => Inst64::Sltu,
            4 => Inst64::Xor,
            5 => Inst64::Srl,
            6 => Inst64::Or,
            _ => Inst64::And,
        },
        1 => match f3 {
            0 => Inst64::Mul,
            1 => Inst64::Mulh,
            2 => Inst64::Mulhsu,
            3 => Inst64::Mulhu,
            4 => Inst64::Div,
            5 => Inst64::Divu,
            6 => Inst64::Rem,
            _ => Inst64::Remu,
        },
        0x20 => match f3 {
            0 => Inst64::Sub,
            5 => Inst64::Sra,
            _ => return Err(SimError::Decode { inst }),
        },
        _ => return Err(SimError::Decode { inst }),
    };
    Ok(reg_reg_record(inst, alu_op))
}

/// 0110111 LUI: U type.
fn decode_lui(inst: u32) -> (r: Result<InternalFetchDecode, SimError>)
    ensures
        r == class_result(inst, Some(Inst64::Lui)),
{
    let rd = rd(inst);
    Ok(InternalFetchDecode {
        pc: 0,
        alu_op: Inst64::Lui,
        sext: SextType::U,
        alu_src: true,
        mem_read: false,
        mem_write: false,
        branch: false,
        pc_src: false,
        mem_to_reg: false,
        reg_write: rd != 0,
        rs1: 0,
        rs2: 0,
        rs3: 0,
        rd,
        imm: imm_u(inst),
    })
}

/// 0111011 OP_32: R type, word-width.
fn decode_op_32(inst: u32) -> (r: Result<InternalFetchDecode, SimError>)
    ensures
        r == class_result(inst, op_32_op(funct3_of(inst), funct7_of(inst))),
{
    let f3 = funct3(inst);
    let f7 = funct7(inst);
    let alu_op = match f7 {
        0 => match f3 {
            0 => Inst64::Addw,
            1 => Inst64::Sllw,
            5 => Inst64::Srlw,
            _ => return Err(SimError::Decode { inst }),
        },
        1 => match f3 {
            0 => Inst64::Mulw,
            4 => Inst64::Divw,
            5 => Inst64::Divuw,
            6 => Inst64::Remw,
            7 => Inst64::Remuw,
            _ => return Err(SimError::Decode { inst }),
        },
        0x20 => match f3 {
            0 => Inst64::Subw,
            5 => Inst64::Sraw,
            _ => return Err(SimError::Decode { inst }),
        },
        _ => return Err(SimError::Decode { inst }),
    };
    Ok(reg_reg_record(inst, alu_op))
}

/// 1000011 MADD: reserved.
fn decode_madd(inst: u32) -> (r: Result<InternalFetchDecode, SimError>)
    ensures
        r == Err::<InternalFetchDecode, SimError>(SimError::Decode { inst }),
{
    Err(SimError::Decode { inst })
}

/// 1000111 MSUB: reserved.
fn decode_msub(inst: u32) -> (r: Result<InternalFetchDecode, SimError>)
    ensures
        r == Err::<InternalFetchDecode, SimError>(SimError::Decode { inst }),
{
    Err(SimError::Decode { inst })
}

/// 1001011 NMSUB: reserved.
fn decode_nmsub(inst: u32) -> (r: Result<InternalFetchDecode, SimError>)
    ensures
        r == Err::<InternalFetchDecode, SimError>(SimError::Decode { inst }),
{
    Err(SimError::Decode { inst })
}

/// 1001111 NMADD: reserved.
fn decode_nmadd(inst: u32) -> (r: Result<InternalFetchDecode, SimError>)
    ensures
        r == Err::<InternalFetchDecode, SimError>(SimError::Decode { inst }),
{
    Err(SimError::Decode { inst })
}

/// 1010011 OP_FP: reserved.
fn decode_op_fp(inst: u32) -> (r: Result<InternalFetchDecode, SimError>)
    ensures
        r == Err::<InternalFetchDecode, SimError>(SimError::Decode { inst }),
{
    Err(SimError::Decode { inst })
}

/// 1100011 BRANCH: B type; the ALU compares the two registers.
fn decode_branch(inst: u32) -> (r: Result<InternalFetchDecode, SimError>)
    ensures
        r == class_result(inst, branch_op(funct3_of(inst))),
{
    let alu_op = match funct3(inst) {
        0 => Inst64::Beq,
        1 => Inst64::Bne,
        4 => Inst64::Blt,
        5 => Inst64::Bge,
        6 => Inst64::Bltu,
        7 => Inst64::Bgeu,
        _ => return Err(SimError::Decode { inst }),
    };
    Ok(InternalFetchDecode {
        pc: 0,
        alu_op,
        sext: SextType::B,
        alu_src: false,
        mem_read: false,
        mem_write: false,
        branch: true,
        pc_src: false,
        mem_to_reg: false,
        reg_write: false,
        rs1: rs1(inst),
        rs2: rs2(inst),
        rs3: 0,
        rd: 0,
        imm: imm_b(inst),
    })
}

/// 1100111 JALR: I type, always jumps.
fn decode_jalr(inst: u32) -> (r: Result<InternalFetchDecode, SimError>)
    ensures
        r == class_result(inst, if funct3_of(inst) == 0 { Some(Inst64::Jalr) } else { None }),
{
    if funct3(inst) != 0 {
        return Err(SimError::Decode { inst });
    }
    let rd = rd(inst);
    Ok(InternalFetchDecode {
        pc: 0,
        alu_op: Inst64::Jalr,
        sext: SextType::I,
        alu_src: true,
        mem_read: false,
        mem_write: false,
        branch: true,
        pc_src: true,
        mem_to_reg: false,
        reg_write: rd != 0,
        rs1: rs1(inst),
        rs2: 0,
        rs3: 0,
        rd,
        imm: imm_i(inst),
    })
}

/// 1101111 JAL: J type, always jumps.
fn decode_jal(inst: u32) -> (r: Result<InternalFetchDecode, SimError>)
    ensures
        r == class_result(inst, Some(Inst64::Jal)),
{
    let rd = rd(inst);
    Ok(InternalFetchDecode {
        pc: 0,
        alu_op: Inst64::Jal,
        sext: SextType::J,
        alu_src: true,
        mem_read: false,
        mem_write: false,
        branch: true,
        pc_src: true,
        mem_to_reg: false,
        reg_write: rd != 0,
        rs1: 0,
        rs2: 0,
        rs3: 0,
        rd,
        imm: imm_j(inst),
    })
}

/// 1110011 SYSTEM: `ecall`, `ebreak` and the CSR accesses.
fn decode_system(inst: u32) -> (r: Result<InternalFetchDecode, SimError>)
    ensures
        r == class_result(inst, system_op(funct3_of(inst), raw_i(inst))),
{
    let alu_op = match funct3(inst) {
        0 => match inst >> 20u32 {
            0 => Inst64::Ecall,
            1 => Inst64::Ebreak,
            _ => return Err(SimError::Decode { inst }),
        },
        1 => Inst64::Csrrw,
        2 => Inst64::Csrrs,
        3 => Inst64::Csrrc,
        5 => Inst64::Csrrwi,
        6 => Inst64::Csrrsi,
        7 => Inst64::Csrrci,
        _ => return Err(SimError::Decode { inst }),
    };
    let rd = rd(inst);
    let is_env = alu_op == Inst64::Ecall || alu_op == Inst64::Ebreak;
    Ok(InternalFetchDecode {
        pc: 0,
        alu_op,
        sext: SextType::NoImm,
        alu_src: false,
        mem_read: false,
        mem_write: false,
        branch: false,
        pc_src: false,
        mem_to_reg: false,
        reg_write: !is_env && rd != 0,
        rs1: rs1(inst),
        rs2: 0,
        rs3: 0,
        rd,
        imm: 0,
    })
}

} // verus!
