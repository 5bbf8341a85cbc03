//! The closed set of RV64IM operations and the control signals each implies.
use vstd::prelude::*;

verus! {

/// An operation tag, one per RV64IM instruction handled by the pipeline.
#[derive(PartialEq, Eq, Structural, Clone, Copy, Debug)]
pub enum Inst64 {
    Lb, Lh, Lw, Ld, Lbu, Lhu, Lwu,
    Addi, Slti, Sltiu, Xori, Ori, Andi, Slli, Srli, Srai,
    Auipc,
    Addiw, Slliw, Srliw, Sraiw,
    Sb, Sh, Sw, Sd,
    Add, Sub, Sll, Slt, Sltu, Xor, Srl, Sra, Or, And,
    Mul, Mulh, Mulhsu, Mulhu, Div, Divu, Rem, Remu,
    Lui,
    Addw, Subw, Sllw, Srlw, Sraw, Mulw, Divw, Divuw, Remw, Remuw,
    Beq, Bne, Blt, Bge, Bltu, Bgeu,
    Jalr, Jal,
    Ecall, Ebreak,
    Csrrw, Csrrs, Csrrc, Csrrwi, Csrrsi, Csrrci,
}

/// The immediate layout an instruction was decoded with.
#[derive(PartialEq, Eq, Structural, Clone, Copy, Debug)]
pub enum SextType {
    I,
    S,
    B,
    U,
    J,
    NoImm,
}

pub open spec fn is_load(op: Inst64) -> bool {
    matches!(op, Inst64::Lb | Inst64::Lh | Inst64::Lw | Inst64::Ld | Inst64::Lbu | Inst64::Lhu | Inst64::Lwu)
}

pub open spec fn is_store(op: Inst64) -> bool {
    matches!(op, Inst64::Sb | Inst64::Sh | Inst64::Sw | Inst64::Sd)
}

pub open spec fn is_cond_branch(op: Inst64) -> bool {
    matches!(op, Inst64::Beq | Inst64::Bne | Inst64::Blt | Inst64::Bge | Inst64::Bltu | Inst64::Bgeu)
}

pub open spec fn is_jump(op: Inst64) -> bool {
    matches!(op, Inst64::Jal | Inst64::Jalr)
}

pub open spec fn is_csr(op: Inst64) -> bool {
    matches!(op, Inst64::Csrrw | Inst64::Csrrs | Inst64::Csrrc | Inst64::Csrrwi | Inst64::Csrrsi | Inst64::Csrrci)
}

/// Register-register operations (OP and OP_32).
pub open spec fn is_reg_reg(op: Inst64) -> bool {
    matches!(op, Inst64::Add | Inst64::Sub | Inst64::Sll | Inst64::Slt | Inst64::Sltu | Inst64::Xor
        | Inst64::Srl | Inst64::Sra | Inst64::Or | Inst64::And | Inst64::Mul | Inst64::Mulh
        | Inst64::Mulhsu | Inst64::Mulhu | Inst64::Div | Inst64::Divu | Inst64::Rem | Inst64::Remu
        | Inst64::Addw | Inst64::Subw | Inst64::Sllw | Inst64::Srlw | Inst64::Sraw | Inst64::Mulw
        | Inst64::Divw | Inst64::Divuw | Inst64::Remw | Inst64::Remuw)
}

/// Operations that produce a value for `rd`: everything but stores, branches,
/// `ecall` and `ebreak`. A CSR access has no CSR file behind it and reads zero.
pub open spec fn writes_rd(op: Inst64) -> bool {
    !is_store(op) && !is_cond_branch(op) && op != Inst64::Ecall && op != Inst64::Ebreak
}

/// The operations whose second ALU operand is the immediate.
pub open spec fn alu_src_of(op: Inst64) -> bool {
    !is_reg_reg(op) && !is_cond_branch(op) && op != Inst64::Ecall && op != Inst64::Ebreak
        && !is_csr(op)
}

pub open spec fn sext_of(op: Inst64) -> SextType {
    if is_store(op) {
        SextType::S
    } else if is_cond_branch(op) {
        SextType::B
    } else if op == Inst64::Lui || op == Inst64::Auipc {
        SextType::U
    } else if op == Inst64::Jal {
        SextType::J
    } else if is_reg_reg(op) || is_csr(op) || op == Inst64::Ecall || op == Inst64::Ebreak {
        SextType::NoImm
    } else {
        SextType::I
    }
}

} // verus!
