//! The core of an emulator for the 6502-based home console: the CPU
//! interpreter, the memory bus, cartridge loading and the bank-switching
//! mappers, with the frame and sample sinks the host reads.

pub mod bus;
pub mod cartridge;
pub mod cpu;
pub mod decode;
pub mod mapper;
pub mod memory;
pub mod sink;
pub mod status;
