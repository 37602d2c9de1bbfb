//! Core of a cycle-budgeted emulator for an 8-bit home console built around a
//! 6502-family CPU, a scanline-driven picture processing unit (PPU), a system
//! bus with memory-mapped I/O, and a polled input device.
//!
//! Every component carries a mathematical model (a view) and contracts that pin
//! down, instruction by instruction and register by register, how the machine
//! state evolves. The host display/input layer is kept outside: the bus latches
//! a frame edge instead of calling back into the host.

pub mod address_register;
pub mod bus;
pub mod controller_register;
pub mod cpu;
pub mod frame;
pub mod joypads;
pub mod mask_register;
pub mod opcodes;
pub mod ppu;
pub mod pulse;
pub mod render;
pub mod rom;
pub mod scroll_register;
pub mod status_register;
