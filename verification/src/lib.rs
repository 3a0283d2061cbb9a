//! Core of an 8-bit console emulator: a 6502-family CPU, its address bus,
//! a picture-processing unit and a cartridge with its address mapper.
//!
//! Every component has a mathematical model (its view) and every operation
//! states, over those models, what it returns and how it changes the state.

pub mod alu;
pub mod bus;
pub mod cartridge;
pub mod cpu;
pub mod emulator;
pub mod flags;
pub mod mapper;
pub mod opcode;
pub mod ppu;
pub mod ram;
