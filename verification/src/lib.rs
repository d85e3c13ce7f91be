//! A disassembler for Z80 machine code.
//!
//! A binary image is scanned front to back; every step turns one instruction
//! into a record holding its offset, its mnemonic text and the raw bytes it
//! occupies. Each executable function states in its contract exactly what it
//! returns, over the specification functions defined next to it.

pub mod format;
pub mod template;
pub mod register;
pub mod bit_table;
pub mod primary;
pub mod index_table;
pub mod decode;
pub mod laws;
pub mod org;
pub mod listing;

pub use crate::decode::{DasmResult, Disassemble, Truncated};
