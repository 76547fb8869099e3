//! An emulator for the LC-3, a 16-bit teaching architecture.

pub mod bits;
pub mod error;
pub mod flags;
pub mod image;
pub mod machine;
pub mod memory;
pub mod opcode_fn;
pub mod opcodes;
pub mod register;
pub mod trapcode;
pub mod trapcode_fn;

pub use bits::sign_extend;
pub use error::ErrorKind;
pub use flags::{update_flags, CondFlags};
pub use image::read_image;
pub use machine::{Machine, RunState};
pub use memory::{mem_read, mem_write, MemMapReg};
pub use trapcode::TrapCode;
