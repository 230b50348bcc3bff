//! Architectural general-purpose register state of a 64-bit CPU in long mode,
//! and recognition of the register-extension (REX) prefix byte.

pub mod register_laws;
pub mod registers;
pub mod rex;

pub use registers::Registers;
pub use rex::{parse_prefixes, Rex};
