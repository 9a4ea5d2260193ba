//! A fetch-decode-execute interpreter for a 4-bit processor with two
//! registers, a carry flag, a 4-bit program counter and one I/O port.
//!
//! Every executable function is specified against the mathematical model in
//! [`model`]; the laws that relate several functions are proved in [`laws`].

pub mod emulator;
pub mod error;
pub mod laws;
pub mod model;
pub mod opcode;
pub mod port;
pub mod rom;
pub mod register;

pub use emulator::CpuEmulator;
pub use error::EmulatorErr;
pub use model::Status;
pub use opcode::Opcode;
pub use port::Port;
pub use rom::Rom;
pub use register::Register;
