//! The core of a Game-Boy-class emulator: the banked memory image that a
//! cartridge ROM is loaded into, and the CPU that fetches, decodes and
//! executes instructions from it.
//!
//! Every function carries a contract that says exactly what it returns or
//! changes. The contracts are written over the register file, over the
//! memory regions seen as sequences of bytes, and over a few small `spec`
//! functions that model a fetch, a decode, an execute and a whole cycle.
//! Nothing in the library exits or panics: what cannot be done is returned
//! as a [`cpu::Fault`], and the caller decides what to do about it.

pub mod cpu;
pub mod mem;
