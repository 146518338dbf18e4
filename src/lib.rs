//! Hardware core of a Sega Master System emulator: the Z80 CPU, the two
//! cartridge memory mappers, the video display processor's line stepper and
//! renderer, interrupt resolution and the frame scheduler.

pub mod memo;
pub mod memory;
pub mod sega;
pub mod codemasters;
pub mod mapper;
pub mod alu;
pub mod z80;
pub mod instructions;
pub mod interpreter;
pub mod interrupts;
pub mod vdp;
pub mod render;
pub mod sms;
pub mod recording;
