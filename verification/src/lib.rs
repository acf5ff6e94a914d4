//! Core-dump encoder for the Panthor GPU driver, together with the register
//! map of the GPU and the small device helpers that go with it.
//!
//! The encoder captures the volatile state of the GPU, its control registers
//! and the contents of its active buffer objects, into one self-describing
//! binary blob. Every function is verified against a mathematical model of
//! the blob: see [`dump`].

pub mod dump;
pub mod error;
pub mod iomem;
pub mod pci;
pub mod regs;
