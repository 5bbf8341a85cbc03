//! The 32 general registers; `x0` always reads as zero.
use vstd::prelude::*;

verus! {

pub struct RegisterFile {
    pub regs: Vec<u64>,
}

impl RegisterFile {
    /// Thirty-two registers, the first of them zero.
    pub open spec fn wf(&self) -> bool {
        self.regs@.len() == 32 && self.regs@[0] == 0
    }

    /// The register values after writing `v` to register `i`.
    pub open spec fn written(regs: Seq<u64>, i: int, v: u64) -> Seq<u64> {
        if i == 0 {
            regs
        } else {
            regs.update(i, v)
        }
    }

    pub fn new() -> (r: RegisterFile)
        ensures
            r.wf(),
            forall|i: int| 0 <= i < 32 ==> #[trigger] r.regs@[i] == 0,
    {
        RegisterFile { regs: vec![0u64; 32] }
    }

    pub fn read(&self, i: u8) -> (r: u64)
        requires
            self.wf(),
            i < 32,
        ensures
            r == self.regs@[i as int],
            i == 0 ==> r == 0,
    {
        self.regs[i as usize]
    }

    /// Writes `v` to register `i`; a write to `x0` is dropped.
    pub fn write(&mut self, i: u8, v: u64)
        requires
            old(self).wf(),
            i < 32,
        ensures
            final(self).wf(),
            final(self).regs@ == Self::written(old(self).regs@, i as int, v),
    {
        if i != 0 {
            self.regs.set(i as usize, v);
        }
    }
}

} // verus!
