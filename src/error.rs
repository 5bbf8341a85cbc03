//! Faults that stop a simulation run.
use vstd::prelude::*;

verus! {

#[derive(PartialEq, Eq, Structural, Clone, Copy, Debug)]
pub enum SimError {
    /// Unknown opcode or funct field, or a reserved instruction class.
    Decode { inst: u32 },
    /// Misaligned or unreadable fetch address.
    Fetch { pc: u64 },
    /// Out-of-bounds data access.
    Memory { addr: u64 },
}

} // verus!
