//! A cycle-level model of a five-stage in-order RV64IM pipeline: instruction
//! decoding, a register file with `x0` wired to zero, flat memory, the four
//! pipeline latches, hazard detection, forwarding and writeback.

pub mod alu;
pub mod cpu;
pub mod debugger;
pub mod decode;
pub mod error;
pub mod fields;
pub mod insts;
pub mod memory;
pub mod pipeline;
pub mod reference;
pub mod regfile;
pub mod regnames;
