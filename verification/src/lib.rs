//! Interpreter core for a classic 8-bit virtual machine: a register machine
//! with 16-bit instruction words, byte-addressable memory, a fixed-depth call
//! stack, two countdown timers, a monochrome display buffer, and a key-state
//! array. The machine executes one fetch-decode-execute cycle per call.

pub mod cpu;
pub mod laws;
