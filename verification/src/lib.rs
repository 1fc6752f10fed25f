//! An instruction-set simulator for a small 32-bit load/store machine:
//! a byte-addressable memory with big-endian word accessors, a register
//! file with a hardwired-zero slot, a two-format instruction decoder,
//! and a single-step execution core.

pub mod beta;
pub mod error;
pub mod isa;
pub mod laws;
pub mod mem;
