//! The cycle driver: one call of `step` advances all five stages once.
use vstd::prelude::*;
use crate::decode::InternalFetchDecode;
use crate::error::SimError;
use crate::alu::{add64, add64_exec};
use crate::insts::Inst64;
use crate::pipeline::{
    bubble, bubble_spec, decode_stage, detect_load_use, execute, execute_spec, fetch, fetch_spec,
    hazard_spec, mem_stage_spec, memory_stage, record_wf, retire, writeback, InternalDecodeExec,
    InternalExecMem, InternalMemWb, ProgramCounter,
};
use crate::memory::VirtualMemory;
use crate::regfile::RegisterFile;
use crate::regnames::{lemma_reg_index_bound, reg_index, reg_index_spec};

verus! {

pub open spec fn bubble_id_ex() -> InternalDecodeExec {
    InternalDecodeExec { d: bubble_spec(), regval1: 0, regval2: 0 }
}

pub open spec fn sat_inc(c: u64) -> u64 {
    if c < 0xffff_ffff_ffff_ffff { (c + 1) as u64 } else { c }
}

/// IF's effect on a cycle without stall or redirect: the word at `s`'s PC
/// is decoded into IF/ID and PC moves on by 4; a fault waits in IF/ID; after
/// `ebreak` nothing more is fetched.
pub open spec fn fetch_post(s: Cpu, t: Cpu) -> bool {
    if s.fetching {
        match fetch_spec(t.mem, s.pc.pc) {
            Ok((rec, go)) => t.if_id == Ok::<InternalFetchDecode, SimError>(rec) && t.fetching == go
                && t.pc.pc == add64(s.pc.pc, 4),
            Err(e) => t.if_id == Err::<InternalFetchDecode, SimError>(e) && !t.fetching && t.pc
                == s.pc,
        }
    } else {
        t.if_id == Ok::<InternalFetchDecode, SimError>(bubble_spec()) && !t.fetching && t.pc == s.pc
    }
}

/// The front of the pipeline (PC, IF/ID, ID/EX, fetching) is as in `s`.
pub open spec fn front_kept(s: Cpu, t: Cpu) -> bool {
    t.pc == s.pc && t.if_id == s.if_id && t.id_ex == s.id_ex && t.fetching == s.fetching
}

/// One cycle of a running machine with no `ebreak` in MEM/WB, from `s` to `t`
/// with result `r`.
pub open spec fn cycle_post(s: Cpu, t: Cpu, r: Result<bool, SimError>) -> bool {
    let regs1 = retire(s.regs.regs@, s.mem_wb.d, s.mem_wb.regval);
    let (mres, bytes1) = mem_stage_spec(s.ex_mem, s.mem.base, s.mem.bytes@);
    let (em, redirect) = execute_spec(s.id_ex, s.ex_mem, s.mem_wb);
    &&& t.regs.regs@ == regs1
    &&& t.mem.base == s.mem.base
    &&& t.mem.bytes@ == bytes1
    &&& t.cycles == sat_inc(s.cycles)
    &&& !t.halted
    &&& t.exit_code == s.exit_code
    &&& match mres {
        Err(e) => r == Err::<bool, SimError>(e) && front_kept(s, t) && t.ex_mem == s.ex_mem
            && t.mem_wb == s.mem_wb,
        Ok(mw) => match redirect {
            Some(target) => r == Ok::<bool, SimError>(false) && t.pc.pc == target && t.if_id
                == Ok::<InternalFetchDecode, SimError>(bubble_spec()) && t.id_ex == bubble_id_ex()
                && t.fetching && t.ex_mem == em && t.mem_wb == mw,
            None => match s.if_id {
                Err(e) => r == Err::<bool, SimError>(e) && front_kept(s, t) && t.ex_mem
                    == s.ex_mem && t.mem_wb == s.mem_wb,
                Ok(d) => r == Ok::<bool, SimError>(false) && t.ex_mem == em && t.mem_wb == mw && if hazard_spec(
                    s.id_ex,
                    d,
                ) {
                    t.pc == s.pc && t.if_id == s.if_id && t.id_ex == bubble_id_ex() && t.fetching
                        == s.fetching
                } else {
                    t.id_ex == (InternalDecodeExec {
                        d,
                        regval1: regs1[d.rs1 as int],
                        regval2: regs1[d.rs2 as int],
                    }) && fetch_post(s, t)
                },
            },
        },
    }
}

/// One call of `step` from `s` ends in `t` with result `r`. A halted machine
/// stays as it is; an `ebreak` in MEM/WB retires and halts with exit code `x10`.
pub open spec fn step_post(s: Cpu, t: Cpu, r: Result<bool, SimError>) -> bool {
    if s.halted {
        r == Ok::<bool, SimError>(true) && t == s
    } else if s.mem_wb.d.alu_op == Inst64::Ebreak {
        let regs1 = retire(s.regs.regs@, s.mem_wb.d, s.mem_wb.regval);
        &&& r == Ok::<bool, SimError>(true)
        &&& t.regs.regs@ == regs1
        &&& t.halted
        &&& t.exit_code == regs1[10]
        &&& t.cycles == sat_inc(s.cycles)
        &&& t.mem == s.mem
        &&& front_kept(s, t)
        &&& t.ex_mem == s.ex_mem
        &&& t.mem_wb == s.mem_wb
    } else {
        cycle_post(s, t, r)
    }
}

/// `b` follows from `a` by `k` calls of `step` that did not fail.
pub open spec fn reaches(a: Cpu, b: Cpu, k: nat) -> bool
    decreases k,
{
    if k == 0 {
        a == b
    } else {
        exists|m: Cpu, r: Result<bool, SimError>|
            r is Ok && reaches(a, m, (k - 1) as nat) && #[trigger] step_post(m, b, r)
    }
}

/// A load-use stall lasts one cycle: the bubble it leaves in ID/EX is no
/// load, so the held instruction in IF/ID meets no hazard in the next cycle.
pub proof fn lemma_stall_lasts_one_cycle(held: InternalFetchDecode)
    ensures
        !hazard_spec(bubble_id_ex(), held),
{
}

pub struct Cpu {
    pub pc: ProgramCounter,
    pub regs: RegisterFile,
    pub mem: VirtualMemory,
    /// IF/ID; a fetch or decode fault waits here until the instruction would
    /// enter ID, so that a squashed wrong-path fetch never faults.
    pub if_id: Result<InternalFetchDecode, SimError>,
    pub id_ex: InternalDecodeExec,
    pub ex_mem: InternalExecMem,
    pub mem_wb: InternalMemWb,
    /// False once `ebreak` has been fetched, until a redirect.
    pub fetching: bool,
    pub halted: bool,
    pub exit_code: u64,
    pub cycles: u64,
}

impl Cpu {
    pub open spec fn wf(&self) -> bool {
        &&& self.regs.wf()
        &&& (self.if_id is Ok ==> record_wf(self.if_id->Ok_0))
        &&& record_wf(self.id_ex.d)
        &&& record_wf(self.ex_mem.d)
        &&& record_wf(self.mem_wb.d)
    }

    /// A machine with all registers zero, empty latches, and `pc` at `entry`.
    pub fn new(mem: VirtualMemory, entry: u64) -> (r: Cpu)
        ensures
            r.wf(),
            r.pc.pc == entry,
            r.mem == mem,
            !r.halted,
            r.cycles == 0,
            r.exit_code == 0,
            r.fetching,
            r.if_id == Ok::<InternalFetchDecode, SimError>(bubble_spec()),
            r.id_ex == bubble_id_ex(),
            r.ex_mem == (InternalExecMem { d: bubble_spec(), alu_result: 0, store_data: 0 }),
            r.mem_wb == (InternalMemWb { d: bubble_spec(), regval: 0 }),
            forall|i: int| 0 <= i < 32 ==> #[trigger] r.regs.regs@[i] == 0,
    {
        Cpu {
            pc: ProgramCounter { pc: entry },
            regs: RegisterFile::new(),
            mem,
            if_id: Ok(bubble()),
            id_ex: InternalDecodeExec { d: bubble(), regval1: 0, regval2: 0 },
            ex_mem: InternalExecMem { d: bubble(), alu_result: 0, store_data: 0 },
            mem_wb: InternalMemWb { d: bubble(), regval: 0 },
            fetching: true,
            halted: false,
            exit_code: 0,
            cycles: 0,
        }
    }

    pub fn pc(&self) -> (r: u64)
        ensures
            r == self.pc.pc,
    {
        self.pc.pc
    }

    /// The value of register `i`.
    pub fn reg(&self, i: u8) -> (r: u64)
        requires
            self.wf(),
            i < 32,
        ensures
            r == self.regs.regs@[i as int],
    {
        self.regs.read(i)
    }

    /// The value of the register called `name` (`x5`, `a0`, `fp`, ...).
    pub fn reg_val_by_name(&self, name: &[u8]) -> (r: Option<u64>)
        requires
            self.wf(),
        ensures
            r == match reg_index_spec(name@) {
                Some(i) => Some(self.regs.regs@[i as int]),
                None => None::<u64>,
            },
    {
        match reg_index(name) {
            Some(i) => {
                proof {
                    lemma_reg_index_bound(name@);
                }
                Some(self.regs.read(i))
            },
            None => None,
        }
    }

    /// Advances one cycle: WB, MEM, EX, ID, IF in that order, so that each
    /// stage consumes the latch the previous cycle wrote and a register
    /// written in WB is seen by ID in the same cycle. Returns whether the
    /// machine has halted.
    pub fn step(&mut self) -> (r: Result<bool, SimError>)
        requires
            old(self).wf(),
        ensures
            final(self).wf(),
            final(self).regs.regs@[0] == 0,
            step_post(*old(self), *final(self), r),
    {
        if self.halted {
            return Ok(true);
        }
        if self.cycles < 0xffff_ffff_ffff_ffff {
            self.cycles = self.cycles + 1;
        }
        // WB
        let go_on = writeback(&self.mem_wb, &mut self.regs);
        if !go_on {
            self.halted = true;
            self.exit_code = self.regs.read(10);
            return Ok(true);
        }
        // MEM
        let new_mem_wb = memory_stage(&self.ex_mem, &mut self.mem)?;
        // EX
        let (new_ex_mem, redirect) = execute(&self.id_ex, &self.ex_mem, &self.mem_wb);
        match redirect {
            Some(target) => {
                self.pc.pc = target;
                self.if_id = Ok(bubble());
                self.id_ex = InternalDecodeExec { d: bubble(), regval1: 0, regval2: 0 };
                self.fetching = true;
            },
            None => {
                let d = match self.if_id {
                    Ok(d) => d,
                    Err(e) => return Err(e),
                };
                if detect_load_use(&self.id_ex, &d) {
                    self.id_ex = InternalDecodeExec { d: bubble(), regval1: 0, regval2: 0 };
                } else {
                    // ID
                    self.id_ex = decode_stage(&d, &self.regs);
                    // IF
                    if self.fetching {
                        match fetch(&self.pc, &self.mem) {
                            Ok((rec, go)) => {
                                self.if_id = Ok(rec);
                                self.fetching = go;
                                self.pc.pc = add64_exec(self.pc.pc, 4);
                            },
                            Err(e) => {
                                self.if_id = Err(e);
                                self.fetching = false;
                            },
                        }
                    } else {
                        self.if_id = Ok(bubble());
                    }
                }
            },
        }
        self.ex_mem = new_ex_mem;
        self.mem_wb = new_mem_wb;
        Ok(false)
    }

    /// Runs until the machine halts, a fault stops it, or `max_cycles` cycles
    /// have passed. Returns the exit code once halted, `None` at the limit.
    pub fn run_until_halt(&mut self, max_cycles: u64) -> (r: Result<Option<u64>, SimError>)
        requires
            old(self).wf(),
        ensures
            final(self).wf(),
            final(self).regs.regs@[0] == 0,
            old(self).halted ==> r == Ok::<Option<u64>, SimError>(Some(old(self).exit_code))
                && *final(self) == *old(self),
            r matches Ok(Some(code)) ==> final(self).halted && code == final(self).exit_code
                && exists|k: nat| k <= max_cycles && reaches(*old(self), *final(self), k),
            r matches Ok(None) ==> !final(self).halted && reaches(
                *old(self),
                *final(self),
                max_cycles as nat,
            ),
            r matches Err(e) ==> exists|k: nat, m: Cpu|
                k < max_cycles && #[trigger] reaches(*old(self), m, k) && step_post(
                    m,
                    *final(self),
                    Err::<bool, SimError>(e),
                ),
    {
        let mut k: u64 = 0;
        while k < max_cycles
            invariant
                self.wf(),
                k <= max_cycles,
                reaches(*old(self), *self, k as nat),
                old(self).halted ==> *self == *old(self),
            decreases max_cycles - k,
        {
            let ghost prev = *self;
            let res = self.step();
            match res {
                Err(e) => {
                    assert(step_post(prev, *self, Err::<bool, SimError>(e)));
                    assert(reaches(*old(self), prev, k as nat));
                    return Err(e);
                },
                Ok(halted) => {
                    assert(step_post(prev, *self, res));
                    assert(reaches(*old(self), *self, (k + 1) as nat));
                    if halted {
                        return Ok(Some(self.exit_code));
                    }
                },
            }
            k = k + 1;
        }
        if self.halted {
            Ok(Some(self.exit_code))
        } else {
            Ok(None)
        }
    }
}

} // verus!
