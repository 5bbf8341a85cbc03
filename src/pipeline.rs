//! The pipeline latches and the combinational work of each stage.
use vstd::prelude::*;
use crate::alu::{alu, alu_spec, branch_taken, branch_target, taken_spec, target_spec};
use crate::decode::{decode_spec, inst_interpret, InternalFetchDecode};
use crate::error::SimError;
use crate::fields::{sign_extend, signed_field, to_u64};
use crate::insts::{Inst64, SextType};
use crate::memory::{le_value, stored, VirtualMemory};
use crate::regfile::RegisterFile;

verus! {

pub struct ProgramCounter {
    pub pc: u64,
}

impl ProgramCounter {
    pub fn read(&self) -> (r: u64)
        ensures
            r == self.pc,
    {
        self.pc
    }
}

/// ID/EX: the record plus the two register values read in ID.
#[derive(PartialEq, Eq, Structural, Clone, Copy, Debug)]
pub struct InternalDecodeExec {
    pub d: InternalFetchDecode,
    pub regval1: u64,
    pub regval2: u64,
}

/// EX/MEM: the record plus the ALU result and the (forwarded) store operand.
#[derive(PartialEq, Eq, Structural, Clone, Copy, Debug)]
pub struct InternalExecMem {
    pub d: InternalFetchDecode,
    pub alu_result: u64,
    pub store_data: u64,
}

/// MEM/WB: the record plus the value destined for `rd`.
#[derive(PartialEq, Eq, Structural, Clone, Copy, Debug)]
pub struct InternalMemWb {
    pub d: InternalFetchDecode,
    pub regval: u64,
}

/// A synthetic no-op: `addi x0, x0, 0` that writes nothing and touches no memory.
pub open spec fn bubble_spec() -> InternalFetchDecode {
    InternalFetchDecode {
        pc: 0,
        alu_op: Inst64::Addi,
        sext: SextType::I,
        alu_src: true,
        mem_read: false,
        mem_write: false,
        branch: false,
        pc_src: false,
        mem_to_reg: false,
        reg_write: false,
        rs1: 0,
        rs2: 0,
        rs3: 0,
        rd: 0,
        imm: 0,
    }
}

/// An annulled instruction neither writes a register nor touches memory, nor
/// redirects fetch.
pub proof fn lemma_bubble_inert()
    ensures
        !bubble_spec().reg_write,
        !bubble_spec().mem_write,
        !bubble_spec().mem_read,
        !bubble_spec().branch,
        bubble_spec().rd == 0,
{
}

pub fn bubble() -> (r: InternalFetchDecode)
    ensures
        r == bubble_spec(),
{
    InternalFetchDecode {
        pc: 0,
        alu_op: Inst64::Addi,
        sext: SextType::I,
        alu_src: true,
        mem_read: false,
        mem_write: false,
        branch: false,
        pc_src: false,
        mem_to_reg: false,
        reg_write: false,
        rs1: 0,
        rs2: 0,
        rs3: 0,
        rd: 0,
        imm: 0,
    }
}

/// Register indices of a record fit in five bits.
pub open spec fn record_wf(d: InternalFetchDecode) -> bool {
    d.rs1 < 32 && d.rs2 < 32 && d.rd < 32
}

/// What IF yields at `pc`: the decoded record and whether fetching goes on
/// (it stops after `ebreak`), or the fault.
pub open spec fn fetch_spec(vm: VirtualMemory, pc: u64) -> Result<(InternalFetchDecode, bool), SimError> {
    if pc % 4 == 0 && vm.in_range(pc, 4) {
        match decode_spec(pc, vm.value_at(pc, 4) as u32) {
            Ok(d) => Ok((d, d.alu_op != Inst64::Ebreak)),
            Err(e) => Err(e),
        }
    } else {
        Err(SimError::Fetch { pc })
    }
}

/// Fetches and decodes the instruction at the program counter.
pub fn fetch(pc: &ProgramCounter, vm: &VirtualMemory) -> (r: Result<(InternalFetchDecode, bool), SimError>)
    ensures
        r == fetch_spec(*vm, pc.pc),
        r is Ok ==> r->Ok_0.0.pc == pc.pc,
        r is Ok ==> record_wf(r->Ok_0.0),
{
    let pc = pc.read();
    let inst = vm.fetch_inst(pc)?;
    let d = inst_interpret(pc, inst)?;
    proof {
        crate::fields::lemma_field_bounds(inst);
    }
    Ok((d, d.alu_op != Inst64::Ebreak))
}

/// Load-use hazard: the load in ID/EX writes a register that the
/// instruction in IF/ID reads.
pub open spec fn hazard_spec(id_ex: InternalDecodeExec, if_id: InternalFetchDecode) -> bool {
    id_ex.d.mem_read && id_ex.d.rd != 0 && (id_ex.d.rd == if_id.rs1 || id_ex.d.rd == if_id.rs2)
}

pub fn detect_load_use(id_ex: &InternalDecodeExec, if_id: &InternalFetchDecode) -> (r: bool)
    ensures
        r == hazard_spec(*id_ex, *if_id),
{
    id_ex.d.mem_read && id_ex.d.rd != 0 && (id_ex.d.rd == if_id.rs1 || id_ex.d.rd == if_id.rs2)
}

/// The value of source register `rs` seen in EX: the youngest producer among
/// EX/MEM and MEM/WB, else the value read in ID.
pub open spec fn forward_spec(rs: u8, read: u64, ex_mem: InternalExecMem, mem_wb: InternalMemWb) -> u64 {
    if ex_mem.d.reg_write && ex_mem.d.rd != 0 && ex_mem.d.rd == rs {
        ex_mem.alu_result
    } else if mem_wb.d.reg_write && mem_wb.d.rd != 0 && mem_wb.d.rd == rs {
        mem_wb.regval
    } else {
        read
    }
}

pub fn forward(rs: u8, read: u64, ex_mem: &InternalExecMem, mem_wb: &InternalMemWb) -> (r: u64)
    ensures
        r == forward_spec(rs, read, *ex_mem, *mem_wb),
{
    if ex_mem.d.reg_write && ex_mem.d.rd != 0 && ex_mem.d.rd == rs {
        ex_mem.alu_result
    } else if mem_wb.d.reg_write && mem_wb.d.rd != 0 && mem_wb.d.rd == rs {
        mem_wb.regval
    } else {
        read
    }
}

/// The register values once the instruction `d` retires with value `v`.
pub open spec fn retire(regs: Seq<u64>, d: InternalFetchDecode, v: u64) -> Seq<u64> {
    if d.reg_write {
        RegisterFile::written(regs, d.rd as int, v)
    } else {
        regs
    }
}

/// Forwarding gives EX the value a one-at-a-time machine would read: the
/// register file as ID read it, after the instructions in MEM/WB and then
/// EX/MEM have retired. The producer in EX/MEM is no load (a load there is
/// kept apart from its user by the load-use stall).
pub proof fn lemma_forwarding_sees_latest(
    regs: Seq<u64>,
    rs: u8,
    ex_mem: InternalExecMem,
    mem_wb: InternalMemWb,
)
    requires
        regs.len() == 32,
        regs[0] == 0,
        rs < 32,
        record_wf(ex_mem.d),
        record_wf(mem_wb.d),
        !ex_mem.d.mem_read,
    ensures
        forward_spec(rs, regs[rs as int], ex_mem, mem_wb) == retire(
            retire(regs, mem_wb.d, mem_wb.regval),
            ex_mem.d,
            ex_mem.alu_result,
        )[rs as int],
{
}

/// ID: reads the two source registers.
pub fn decode_stage(d: &InternalFetchDecode, regs: &RegisterFile) -> (r: InternalDecodeExec)
    requires
        regs.wf(),
        record_wf(*d),
    ensures
        r == (InternalDecodeExec {
            d: *d,
            regval1: regs.regs@[d.rs1 as int],
            regval2: regs.regs@[d.rs2 as int],
        }),
{
    InternalDecodeExec { d: *d, regval1: regs.read(d.rs1), regval2: regs.read(d.rs2) }
}

/// What EX latches, and the redirect target when a branch or jump is taken.
pub open spec fn execute_spec(id_ex: InternalDecodeExec, ex_mem: InternalExecMem, mem_wb: InternalMemWb) -> (InternalExecMem, Option<u64>) {
    let d = id_ex.d;
    let a = forward_spec(d.rs1, id_ex.regval1, ex_mem, mem_wb);
    let v2 = forward_spec(d.rs2, id_ex.regval2, ex_mem, mem_wb);
    let b = if d.alu_src { d.imm } else { v2 };
    let out = InternalExecMem { d, alu_result: alu_spec(d.alu_op, d.pc, a, b), store_data: v2 };
    let redirect = if d.branch && taken_spec(d.alu_op, a, v2) {
        Some(target_spec(d.alu_op, d.pc, a, d.imm))
    } else {
        None
    };
    (out, redirect)
}

/// EX: resolves operands by forwarding, runs the ALU and resolves branches.
pub fn execute(id_ex: &InternalDecodeExec, ex_mem: &InternalExecMem, mem_wb: &InternalMemWb) -> (r: (InternalExecMem, Option<u64>))
    ensures
        r == execute_spec(*id_ex, *ex_mem, *mem_wb),
{
    let d = id_ex.d;
    let a = forward(d.rs1, id_ex.regval1, ex_mem, mem_wb);
    let v2 = forward(d.rs2, id_ex.regval2, ex_mem, mem_wb);
    let b = if d.alu_src { d.imm } else { v2 };
    let out = InternalExecMem { d, alu_result: alu(d.alu_op, d.pc, a, b), store_data: v2 };
    let redirect = if d.branch && branch_taken(d.alu_op, a, v2) {
        Some(branch_target(d.alu_op, d.pc, a, d.imm))
    } else {
        None
    };
    (out, redirect)
}

/// Bytes moved by a load or store.
pub open spec fn access_size(op: Inst64) -> u64 {
    match op {
        Inst64::Lb | Inst64::Lbu | Inst64::Sb => 1,
        Inst64::Lh | Inst64::Lhu | Inst64::Sh => 2,
        Inst64::Lw | Inst64::Lwu | Inst64::Sw => 4,
        _ => 8,
    }
}

/// The register value of a load that read `raw`: sign-extended for
/// `lb`, `lh`, `lw`, zero-extended otherwise.
pub open spec fn load_value(op: Inst64, raw: nat) -> u64 {
    match op {
        Inst64::Lb => to_u64(signed_field(raw as int, 0x80)),
        Inst64::Lh => to_u64(signed_field(raw as int, 0x8000)),
        Inst64::Lw => to_u64(signed_field(raw as int, 0x8000_0000)),
        _ => raw as u64,
    }
}

fn size_of_access(op: Inst64) -> (r: u64)
    ensures
        r == access_size(op),
        r == 1 || r == 2 || r == 4 || r == 8,
{
    match op {
        Inst64::Lb | Inst64::Lbu | Inst64::Sb => 1,
        Inst64::Lh | Inst64::Lhu | Inst64::Sh => 2,
        Inst64::Lw | Inst64::Lwu | Inst64::Sw => 4,
        _ => 8,
    }
}

/// What MEM yields for the instruction in EX/MEM, and the memory bytes
/// afterwards, on a memory of `base` and `bytes`.
pub open spec fn mem_stage_spec(ex_mem: InternalExecMem, base: u64, bytes: Seq<u8>) -> (Result<InternalMemWb, SimError>, Seq<u8>) {
    let d = ex_mem.d;
    let addr = ex_mem.alu_result;
    let n = access_size(d.alu_op);
    let ok = base <= addr && (addr - base) + n <= bytes.len();
    if d.mem_read {
        if ok {
            (Ok(InternalMemWb { d, regval: load_value(d.alu_op, le_value(bytes, addr - base, n as nat)) }), bytes)
        } else {
            (Err(SimError::Memory { addr }), bytes)
        }
    } else if d.mem_write {
        if ok {
            (Ok(InternalMemWb { d, regval: addr }), stored(bytes, addr - base, n as int, ex_mem.store_data))
        } else {
            (Err(SimError::Memory { addr }), bytes)
        }
    } else {
        (Ok(InternalMemWb { d, regval: addr }), bytes)
    }
}

/// MEM: performs the load or store of the instruction in EX/MEM.
pub fn memory_stage(ex_mem: &InternalExecMem, vm: &mut VirtualMemory) -> (r: Result<InternalMemWb, SimError>)
    ensures
        (r, final(vm).bytes@) == mem_stage_spec(*ex_mem, old(vm).base, old(vm).bytes@),
        final(vm).base == old(vm).base,
{
    let d = ex_mem.d;
    let addr = ex_mem.alu_result;
    if d.mem_read {
        let n = size_of_access(d.alu_op);
        let raw = vm.read(addr, n)?;
        proof {
            crate::memory::lemma_pow256_values();
        }
        let regval = match d.alu_op {
            Inst64::Lb => sign_extend(raw as u32, 0x80),
            Inst64::Lh => sign_extend(raw as u32, 0x8000),
            Inst64::Lw => sign_extend(raw as u32, 0x8000_0000),
            _ => raw,
        };
        Ok(InternalMemWb { d, regval })
    } else if d.mem_write {
        let n = size_of_access(d.alu_op);
        vm.write(addr, n, ex_mem.store_data)?;
        assert(vm.bytes@ =~= stored(old(vm).bytes@, addr - old(vm).base, n as int, ex_mem.store_data));
        Ok(InternalMemWb { d, regval: addr })
    } else {
        Ok(InternalMemWb { d, regval: addr })
    }
}

/// WB: commits the value destined for `rd`; returns false once `ebreak`
/// retires, when the run halts with exit code `x10`.
pub fn writeback(itl_m_w: &InternalMemWb, reg_file: &mut RegisterFile) -> (r: bool)
    requires
        old(reg_file).wf(),
        itl_m_w.d.rd < 32,
    ensures
        final(reg_file).wf(),
        final(reg_file).regs@ == if itl_m_w.d.reg_write {
            RegisterFile::written(old(reg_file).regs@, itl_m_w.d.rd as int, itl_m_w.regval)
        } else {
            old(reg_file).regs@
        },
        r == (itl_m_w.d.alu_op != Inst64::Ebreak),
{
    if itl_m_w.d.reg_write {
        reg_file.write(itl_m_w.d.rd, itl_m_w.regval);
    }
    itl_m_w.d.alu_op != Inst64::Ebreak
}

} // verus!
