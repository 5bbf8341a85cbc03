//! The interactive debugger's command semantics; reading commands and
//! printing replies is left to the caller.
use vstd::prelude::*;
use crate::alu::{add64, add64_exec, mul64, mul64_exec};
use crate::cpu::{reaches, step_post, Cpu};
use crate::error::SimError;

verus! {

/// A parsed debugger command.
#[derive(PartialEq, Eq, Clone, Copy, Debug)]
pub enum Command {
    Help,
    Continue,
    Quit,
    Step { n: i32 },
    /// All registers and the program counter.
    InfoAll,
    /// One register by index.
    InfoReg { idx: u8 },
    InfoPc,
    /// `count` quad-words from `vaddr`, 4 bytes apart.
    Scan { count: u64, vaddr: u64 },
    Backtrace,
}

/// What a command produced, for the caller to show.
#[derive(PartialEq, Eq, Debug)]
pub enum Reply {
    Help,
    /// `Continue` reached its cycle limit without halting.
    Running,
    /// The program ran to `ebreak`.
    Finished { exit_code: u64 },
    /// A fault stopped the run.
    Raised { err: SimError },
    Quit,
    NegativeSteps { n: i32 },
    /// `done` cycles ran; `fault` is set when the last one failed.
    Stepped { done: i32, fault: Option<SimError> },
    Registers { regs: Vec<u64>, pc: u64 },
    Register { idx: u8, value: u64 },
    NoSuchRegister { idx: u8 },
    Pc { pc: u64 },
    /// Address and read result of each scanned quad-word.
    Words { words: Vec<(u64, Result<u64, SimError>)> },
    /// Saved return addresses, innermost first.
    Frames { ret: Vec<u64> },
}

#[allow(non_camel_case_types, clippy::upper_case_acronyms)]
pub struct REDB {
    pub cpu: Cpu,
}

impl REDB {
    pub fn new(cpu: Cpu) -> (r: REDB)
        ensures
            r.cpu == cpu,
    {
        REDB { cpu }
    }

    /// Carries out one command. `Continue` runs until halt or fault;
    /// `Step` runs up to `n` cycles and stops at the first fault. Commands
    /// that only inspect leave the machine as it is.
    pub fn execute(&mut self, cmd: Command) -> (r: Reply)
        requires
            old(self).cpu.wf(),
        ensures
            final(self).cpu.wf(),
            !(cmd is Continue || cmd is Step) ==> final(self).cpu == old(self).cpu,
            cmd == Command::Help ==> r == Reply::Help,
            cmd == Command::Quit ==> r == Reply::Quit,
            cmd == Command::InfoPc ==> r == (Reply::Pc { pc: old(self).cpu.pc.pc }),
            cmd matches Command::InfoReg { idx } ==> idx < 32 ==> r == (Reply::Register {
                idx,
                value: old(self).cpu.regs.regs@[idx as int],
            }),
            cmd matches Command::InfoReg { idx } ==> idx >= 32 ==> r == (Reply::NoSuchRegister {
                idx,
            }),
            cmd matches Command::InfoAll ==> (r matches Reply::Registers { regs, pc } && regs@
                == old(self).cpu.regs.regs@ && pc == old(self).cpu.pc.pc),
            cmd is Backtrace ==> (r matches Reply::Frames { ret } && ret@ == seq![
                old(self).cpu.regs.regs@[1],
            ]),
            cmd matches Command::Scan { count, vaddr } ==> (r matches Reply::Words { words }
                && words@.len() == count && forall|i: int|
                0 <= i < count ==> #[trigger] words@[i] == (
                    add64(vaddr, mul64(4, i as u64)),
                    old(self).cpu.mem.read_result(add64(vaddr, mul64(4, i as u64)), 8),
                )),
            cmd == Command::Continue ==> (r is Finished || r is Raised || r is Running),
            cmd == Command::Continue ==> (r matches Reply::Finished { exit_code }
                ==> final(self).cpu.halted && exit_code == final(self).cpu.exit_code && exists|
                k: nat,
            | reaches(old(self).cpu, final(self).cpu, k)),
            cmd == Command::Continue ==> (r matches Reply::Raised { err } ==> exists|
                k: nat,
                m: Cpu,
            | #[trigger] reaches(old(self).cpu, m, k) && step_post(
                m,
                final(self).cpu,
                Err::<bool, SimError>(err),
            )),
            cmd == Command::Continue ==> (r is Running ==> !final(self).cpu.halted && reaches(
                old(self).cpu,
                final(self).cpu,
                0xffff_ffff_ffff_ffff,
            )),
            cmd matches Command::Step { n } ==> n < 0 ==> r == (Reply::NegativeSteps { n })
                && final(self).cpu == old(self).cpu,
            cmd matches Command::Step { n } ==> n >= 0 ==> (r matches Reply::Stepped { done, fault }
                && 0 <= done <= n && (fault is None ==> done == n && reaches(
                old(self).cpu,
                final(self).cpu,
                n as nat,
            )) && (fault matches Some(e) ==> exists|m: Cpu|
                #[trigger] reaches(old(self).cpu, m, done as nat) && step_post(
                    m,
                    final(self).cpu,
                    Err::<bool, SimError>(e),
                ))),
    {
        match cmd {
            Command::Help => Reply::Help,
            Command::Quit => Reply::Quit,
            Command::Continue => match self.cpu.run_until_halt(0xffff_ffff_ffff_ffff) {
                Ok(Some(exit_code)) => Reply::Finished { exit_code },
                Ok(None) => Reply::Running,
                Err(err) => Reply::Raised { err },
            },
            Command::Step { n } => {
                if n < 0 {
                    return Reply::NegativeSteps { n };
                }
                let mut done: i32 = 0;
                while done < n
                    invariant
                        self.cpu.wf(),
                        0 <= done <= n,
                        cmd == (Command::Step { n }),
                        reaches(old(self).cpu, self.cpu, done as nat),
                    decreases n - done,
                {
                    let ghost prev = self.cpu;
                    let res = self.cpu.step();
                    match res {
                        Ok(_) => {
                            assert(step_post(prev, self.cpu, res));
                            assert(reaches(old(self).cpu, self.cpu, (done + 1) as nat));
                        },
                        Err(e) => {
                            assert(step_post(prev, self.cpu, Err::<bool, SimError>(e)));
                            return Reply::Stepped { done, fault: Some(e) };
                        },
                    }
                    done = done + 1;
                }
                Reply::Stepped { done, fault: None }
            },
            Command::InfoAll => Reply::Registers { regs: self.cpu.regs.regs.clone(), pc: self.cpu.pc.pc },
            Command::InfoReg { idx } => {
                if idx < 32 {
                    Reply::Register { idx, value: self.cpu.reg(idx) }
                } else {
                    Reply::NoSuchRegister { idx }
                }
            },
            Command::InfoPc => Reply::Pc { pc: self.cpu.pc() },
            Command::Scan { count, vaddr } => {
                let mut words: Vec<(u64, Result<u64, SimError>)> = Vec::new();
                let mut i: u64 = 0;
                while i < count
                    invariant
                        0 <= i <= count,
                        words@.len() == i,
                        forall|j: int|
                            0 <= j < i ==> #[trigger] words@[j] == (
                                add64(vaddr, mul64(4, j as u64)),
                                self.cpu.mem.read_result(add64(vaddr, mul64(4, j as u64)), 8),
                            ),
                    decreases count - i,
                {
                    let addr = add64_exec(vaddr, mul64_exec(4, i));
                    words.push((addr, self.cpu.mem.read(addr, 8)));
                    i = i + 1;
                }
                Reply::Words { words }
            },
            Command::Backtrace => {
                let mut ret: Vec<u64> = Vec::new();
                ret.push(self.cpu.reg(1));
                Reply::Frames { ret }
            },
        }
    }
}

} // verus!
