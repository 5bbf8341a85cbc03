//! A single-cycle interpreter: each step runs one instruction through all
//! five stages before the next one starts, so no hazard can arise. It is
//! the baseline the pipeline's results are compared with.
use vstd::prelude::*;
use crate::error::SimError;
use crate::memory::VirtualMemory;
use crate::alu::{add64, add64_exec};
use crate::decode::InternalFetchDecode;
use crate::insts::Inst64;
use crate::pipeline::{
    bubble, bubble_spec, decode_stage, execute, execute_spec, fetch, fetch_spec, mem_stage_spec,
    memory_stage, retire, writeback, InternalDecodeExec, InternalExecMem, InternalMemWb,
};
use crate::cpu::sat_inc;
use crate::pipeline::ProgramCounter;
use crate::regfile::RegisterFile;

verus! {

pub struct SingleCycle {
    pub pc: ProgramCounter,
    pub regs: RegisterFile,
    pub mem: VirtualMemory,
    pub halted: bool,
    pub exit_code: u64,
    pub retired: u64,
}

/// The ID/EX latch of `d` with its operands read from `regs`.
pub open spec fn operands(regs: Seq<u64>, d: InternalFetchDecode) -> InternalDecodeExec {
    InternalDecodeExec { d, regval1: regs[d.rs1 as int], regval2: regs[d.rs2 as int] }
}

pub open spec fn empty_ex_mem() -> InternalExecMem {
    InternalExecMem { d: bubble_spec(), alu_result: 0, store_data: 0 }
}

pub open spec fn empty_mem_wb() -> InternalMemWb {
    InternalMemWb { d: bubble_spec(), regval: 0 }
}

/// `t` holds the same architectural state as `s`.
pub open spec fn same_state(s: SingleCycle, t: SingleCycle) -> bool {
    &&& t.pc == s.pc
    &&& t.regs.regs@ == s.regs.regs@
    &&& t.mem.base == s.mem.base
    &&& t.mem.bytes@ == s.mem.bytes@
    &&& t.halted == s.halted
    &&& t.exit_code == s.exit_code
    &&& t.retired == s.retired
}

/// One call of `step` from `s` ends in `t` with result `r`: the instruction at
/// PC is fetched, its operands read, computed, its memory access made, its
/// result written back and PC moved to the branch target or on by 4. A fault
/// leaves the state as it was.
pub open spec fn single_post(s: SingleCycle, t: SingleCycle, r: Result<bool, SimError>) -> bool {
    if s.halted {
        r == Ok::<bool, SimError>(true) && same_state(s, t)
    } else {
        match fetch_spec(s.mem, s.pc.pc) {
            Err(e) => r == Err::<bool, SimError>(e) && same_state(s, t),
            Ok((d, _)) => {
                let (em, redirect) = execute_spec(operands(s.regs.regs@, d), empty_ex_mem(), empty_mem_wb());
                let (mres, bytes1) = mem_stage_spec(em, s.mem.base, s.mem.bytes@);
                match mres {
                    Err(e) => r == Err::<bool, SimError>(e) && same_state(s, t),
                    Ok(mw) => {
                        let regs1 = retire(s.regs.regs@, mw.d, mw.regval);
                        &&& t.regs.regs@ == regs1
                        &&& t.mem.base == s.mem.base
                        &&& t.mem.bytes@ == bytes1
                        &&& t.pc.pc == match redirect {
                            Some(target) => target,
                            None => add64(s.pc.pc, 4),
                        }
                        &&& t.retired == sat_inc(s.retired)
                        &&& t.halted == (d.alu_op == Inst64::Ebreak)
                        &&& r == Ok::<bool, SimError>(t.halted)
                        &&& t.exit_code == if t.halted { regs1[10] } else { s.exit_code }
                    },
                }
            },
        }
    }
}

/// `b` follows from `a` by `k` calls of `step` that did not fail.
pub open spec fn single_reaches(a: SingleCycle, b: SingleCycle, k: nat) -> bool
    decreases k,
{
    if k == 0 {
        same_state(a, b)
    } else {
        exists|m: SingleCycle, r: Result<bool, SimError>|
            r is Ok && single_reaches(a, m, (k - 1) as nat) && #[trigger] single_post(m, b, r)
    }
}

impl SingleCycle {
    pub fn new(mem: VirtualMemory, entry: u64) -> (r: SingleCycle)
        ensures
            r.regs.wf(),
            r.pc.pc == entry,
            r.mem == mem,
            !r.halted,
            r.retired == 0,
    {
        SingleCycle {
            pc: ProgramCounter { pc: entry },
            regs: RegisterFile::new(),
            mem,
            halted: false,
            exit_code: 0,
            retired: 0,
        }
    }

    /// Runs the instruction at `pc` to completion. Returns whether the
    /// machine has halted.
    pub fn step(&mut self) -> (r: Result<bool, SimError>)
        requires
            old(self).regs.wf(),
        ensures
            final(self).regs.wf(),
            final(self).regs.regs@[0] == 0,
            single_post(*old(self), *final(self), r),
    {
        if self.halted {
            return Ok(true);
        }
        let (d, _) = fetch(&self.pc, &self.mem)?;
        let id_ex = decode_stage(&d, &self.regs);
        let none_ex = InternalExecMem { d: bubble(), alu_result: 0, store_data: 0 };
        let none_wb = InternalMemWb { d: bubble(), regval: 0 };
        let (ex_mem, redirect) = execute(&id_ex, &none_ex, &none_wb);
        let mem_wb = memory_stage(&ex_mem, &mut self.mem)?;
        let go_on = writeback(&mem_wb, &mut self.regs);
        if self.retired < 0xffff_ffff_ffff_ffff {
            self.retired = self.retired + 1;
        }
        self.pc.pc = match redirect {
            Some(t) => t,
            None => add64_exec(self.pc.pc, 4),
        };
        if !go_on {
            self.halted = true;
            self.exit_code = self.regs.read(10);
            return Ok(true);
        }
        Ok(false)
    }

    /// Runs until halt, a fault, or `max_steps` instructions.
    pub fn run_until_halt(&mut self, max_steps: u64) -> (r: Result<Option<u64>, SimError>)
        requires
            old(self).regs.wf(),
        ensures
            final(self).regs.wf(),
            old(self).halted ==> r == Ok::<Option<u64>, SimError>(Some(old(self).exit_code))
                && same_state(*old(self), *final(self)),
            r matches Ok(Some(code)) ==> final(self).halted && code == final(self).exit_code
                && exists|k: nat| k <= max_steps && single_reaches(*old(self), *final(self), k),
            r matches Ok(None) ==> !final(self).halted && single_reaches(
                *old(self),
                *final(self),
                max_steps as nat,
            ),
            r matches Err(e) ==> exists|k: nat, m: SingleCycle|
                k < max_steps && #[trigger] single_reaches(*old(self), m, k) && single_post(
                    m,
                    *final(self),
                    Err::<bool, SimError>(e),
                ),
    {
        let mut k: u64 = 0;
        while k < max_steps
            invariant
                self.regs.wf(),
                k <= max_steps,
                single_reaches(*old(self), *self, k as nat),
                old(self).halted ==> same_state(*old(self), *self),
            decreases max_steps - k,
        {
            let ghost prev = *self;
            let res = self.step();
            match res {
                Err(e) => {
                    assert(single_post(prev, *self, Err::<bool, SimError>(e)));
                    assert(single_reaches(*old(self), prev, k as nat));
                    return Err(e);
                },
                Ok(halted) => {
                    assert(single_post(prev, *self, res));
                    assert(single_reaches(*old(self), *self, (k + 1) as nat));
                    if halted {
                        return Ok(Some(self.exit_code));
                    }
                },
            }
            k = k + 1;
        }
        if self.halted {
            Ok(Some(self.exit_code))
        } else {
            Ok(None)
        }
    }
}

} // verus!
