//! An emulator of the Ricoh 2A03, the MOS 6502 variant at the heart of the NES.
//!
//! - `cpu` holds the register file, the table of legal opcodes, the
//!   addressing modes and the fetch-decode-execute engine, with the
//!   mathematical model of the machine that their contracts speak of and the
//!   laws that hold of it.
//! - `memory` holds the contract of a byte-addressable memory and a flat map
//!   that meets it.
//! - `cpu::decomp` and `cpu::prog` turn bytes into instructions and
//!   instructions into assembler text, and read programs from such text.
//! - `snake` holds what a host needs to run the snake game on the CPU.
//! - `text` holds the digits and numbers that dumps and listings are made
//!   of.
//!
//! Every executable function carries a contract, and Verus proves that the
//! function meets it on every input that the contract admits.
pub mod cpu;
pub mod memory;
pub mod snake;
pub mod text;

pub use cpu::prog;
pub use cpu::CPU;
