//! Privileged-mode support for 32-bit ARMv7-A processors: register field
//! arithmetic, memory attribute and translation table encodings, cache
//! maintenance planning, interrupt masking for critical sections and the
//! decisions of the reset-time bring-up sequence.
//!
//! The library computes; the caller performs the register accesses and
//! barrier instructions that each operation asks for.

pub mod attributes;
pub mod bits;
pub mod boot;
pub mod cache;
pub mod level1;
pub mod level2;
pub mod lock;
pub mod mmu;
pub mod scu;
