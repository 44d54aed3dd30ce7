//! Typed, read-only model of binary-diffing result stores and of exported
//! disassembly containers.

pub mod algorithm;
pub mod bindiff;
pub mod binexport;
pub mod error;
pub mod records;
pub mod text;
pub mod value;
pub mod wire;
