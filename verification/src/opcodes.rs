//! The opcode table: for each supported instruction byte, its total length
//! in bytes (opcode included), its base cycle count, and the addressing mode
//! its operand uses. Jumps, branches, stack, implied and accumulator forms
//! decode their operands themselves and carry no addressing mode here.

use crate::cpu::AddressingMode;
use vstd::prelude::*;

verus! {

/// One table entry: length in bytes, base cycles, addressing mode.
#[derive(Clone, Copy, Debug)]
pub struct Opcode {
    pub len: u8,
    pub cycles: u8,
    pub mode: AddressingMode,
}

/// The table itself: the metadata of a supported opcode, or `None` for a
/// byte the interpreter treats as fatal.
pub open spec fn spec_opcode(op: u8) -> Option<Opcode> {
    match op {
        0x09 | 0x0b | 0x29 | 0x2b | 0x49 | 0x4b | 0x69 | 0x6b | 0x80 | 0x82 | 0x89 | 0xa0 | 0xa2 | 0xa9 | 0xab | 0xc0 | 0xc2 | 0xc9 | 0xcb | 0xe0 | 0xe2 | 0xe9 | 0xeb => Some(
            Opcode { len: 2, cycles: 2, mode: AddressingMode::Immediate },
        ),
        0x04 | 0x05 | 0x24 | 0x25 | 0x44 | 0x45 | 0x64 | 0x65 | 0x84 | 0x85 | 0x86 | 0x87 | 0xa4 | 0xa5 | 0xa6 | 0xa7 | 0xc4 | 0xc5 | 0xe4 | 0xe5 => Some(
            Opcode { len: 2, cycles: 3, mode: AddressingMode::ZeroPage },
        ),
        0x14 | 0x15 | 0x34 | 0x35 | 0x54 | 0x55 | 0x74 | 0x75 | 0x94 | 0x95 | 0xb4 | 0xb5 | 0xd4 | 0xd5 | 0xf4 | 0xf5 => Some(
            Opcode { len: 2, cycles: 4, mode: AddressingMode::ZeroPage_X },
        ),
        0x0c | 0x0d | 0x2c | 0x2d | 0x4d | 0x6d | 0x8c | 0x8d | 0x8e | 0x8f | 0xac | 0xad | 0xae | 0xaf | 0xcc | 0xcd | 0xec | 0xed => Some(
            Opcode { len: 3, cycles: 4, mode: AddressingMode::Absolute },
        ),
        0x1c | 0x1d | 0x3c | 0x3d | 0x5c | 0x5d | 0x7c | 0x7d | 0xbc | 0xbd | 0xdc | 0xdd | 0xfc | 0xfd => Some(
            Opcode { len: 3, cycles: 4, mode: AddressingMode::Absolute_X },
        ),
        0x19 | 0x39 | 0x59 | 0x79 | 0xb9 | 0xbe | 0xbf | 0xd9 | 0xf9 => Some(
            Opcode { len: 3, cycles: 4, mode: AddressingMode::Absolute_Y },
        ),
        0x01 | 0x21 | 0x41 | 0x61 | 0x81 | 0x83 | 0xa1 | 0xa3 | 0xc1 | 0xe1 => Some(
            Opcode { len: 2, cycles: 6, mode: AddressingMode::Indirect_X },
        ),
        0x11 | 0x31 | 0x51 | 0x71 | 0xb1 | 0xb3 | 0xd1 | 0xf1 => Some(
            Opcode { len: 2, cycles: 5, mode: AddressingMode::Indirect_Y },
        ),
        0x0a | 0x18 | 0x1a | 0x2a | 0x38 | 0x3a | 0x4a | 0x58 | 0x5a | 0x6a | 0x78 | 0x7a | 0x88 | 0x8a | 0x98 | 0x9a | 0xa8 | 0xaa | 0xb8 | 0xba | 0xc8 | 0xca | 0xd8 | 0xda | 0xe8 | 0xea | 0xf8 | 0xfa => Some(
            Opcode { len: 1, cycles: 2, mode: AddressingMode::NotSupported },
        ),
        0x06 | 0x26 | 0x46 | 0x66 | 0xc6 | 0xc7 | 0xe6 | 0xe7 => Some(
            Opcode { len: 2, cycles: 5, mode: AddressingMode::ZeroPage },
        ),
        0x16 | 0x36 | 0x56 | 0x76 | 0xd6 | 0xd7 | 0xf6 | 0xf7 => Some(
            Opcode { len: 2, cycles: 6, mode: AddressingMode::ZeroPage_X },
        ),
        0x0e | 0x2e | 0x4e | 0x6e | 0xce | 0xcf | 0xee | 0xef => Some(
            Opcode { len: 3, cycles: 6, mode: AddressingMode::Absolute },
        ),
        0x1e | 0x3e | 0x5e | 0x7e | 0xde | 0xdf | 0xfe | 0xff => Some(
            Opcode { len: 3, cycles: 7, mode: AddressingMode::Absolute_X },
        ),
        0x10 | 0x30 | 0x50 | 0x70 | 0x90 | 0xb0 | 0xd0 | 0xf0 => Some(
            Opcode { len: 2, cycles: 2, mode: AddressingMode::NotSupported },
        ),
        0x4c => Some(
            Opcode { len: 3, cycles: 3, mode: AddressingMode::NotSupported },
        ),
        0x6c => Some(
            Opcode { len: 3, cycles: 5, mode: AddressingMode::NotSupported },
        ),
        0x20 => Some(
            Opcode { len: 3, cycles: 6, mode: AddressingMode::NotSupported },
        ),
        0x40 | 0x60 => Some(
            Opcode { len: 1, cycles: 6, mode: AddressingMode::NotSupported },
        ),
        0x96 | 0x97 | 0xb6 | 0xb7 => Some(
            Opcode { len: 2, cycles: 4, mode: AddressingMode::ZeroPage_Y },
        ),
        0x08 | 0x48 => Some(
            Opcode { len: 1, cycles: 3, mode: AddressingMode::NotSupported },
        ),
        0x28 | 0x68 => Some(
            Opcode { len: 1, cycles: 4, mode: AddressingMode::NotSupported },
        ),
        0x00 => Some(
            Opcode { len: 1, cycles: 7, mode: AddressingMode::NotSupported },
        ),
        0x9d => Some(
            Opcode { len: 3, cycles: 5, mode: AddressingMode::Absolute_X },
        ),
        0x99 | 0x9f => Some(
            Opcode { len: 3, cycles: 5, mode: AddressingMode::Absolute_Y },
        ),
        0x91 | 0x93 => Some(
            Opcode { len: 2, cycles: 6, mode: AddressingMode::Indirect_Y },
        ),
        0xdb | 0xfb => Some(
            Opcode { len: 3, cycles: 7, mode: AddressingMode::Absolute_Y },
        ),
        0xc3 | 0xe3 => Some(
            Opcode { len: 2, cycles: 8, mode: AddressingMode::Indirect_X },
        ),
        0xd3 | 0xf3 => Some(
            Opcode { len: 2, cycles: 8, mode: AddressingMode::Indirect_Y },
        ),
        _ => None,
    }
}

/// Looks one opcode up in the table.
pub fn opcode_lookup(op: u8) -> (r: Option<Opcode>)
    ensures
        r == spec_opcode(op),
{
    match op {
        0x09 | 0x0b | 0x29 | 0x2b | 0x49 | 0x4b | 0x69 | 0x6b | 0x80 | 0x82 | 0x89 | 0xa0 | 0xa2 | 0xa9 | 0xab | 0xc0 | 0xc2 | 0xc9 | 0xcb | 0xe0 | 0xe2 | 0xe9 | 0xeb => Some(
            Opcode { len: 2, cycles: 2, mode: AddressingMode::Immediate },
        ),
        0x04 | 0x05 | 0x24 | 0x25 | 0x44 | 0x45 | 0x64 | 0x65 | 0x84 | 0x85 | 0x86 | 0x87 | 0xa4 | 0xa5 | 0xa6 | 0xa7 | 0xc4 | 0xc5 | 0xe4 | 0xe5 => Some(
            Opcode { len: 2, cycles: 3, mode: AddressingMode::ZeroPage },
        ),
        0x14 | 0x15 | 0x34 | 0x35 | 0x54 | 0x55 | 0x74 | 0x75 | 0x94 | 0x95 | 0xb4 | 0xb5 | 0xd4 | 0xd5 | 0xf4 | 0xf5 => Some(
            Opcode { len: 2, cycles: 4, mode: AddressingMode::ZeroPage_X },
        ),
        0x0c | 0x0d | 0x2c | 0x2d | 0x4d | 0x6d | 0x8c | 0x8d | 0x8e | 0x8f | 0xac | 0xad | 0xae | 0xaf | 0xcc | 0xcd | 0xec | 0xed => Some(
            Opcode { len: 3, cycles: 4, mode: AddressingMode::Absolute },
        ),
        0x1c | 0x1d | 0x3c | 0x3d | 0x5c | 0x5d | 0x7c | 0x7d | 0xbc | 0xbd | 0xdc | 0xdd | 0xfc | 0xfd => Some(
            Opcode { len: 3, cycles: 4, mode: AddressingMode::Absolute_X },
        ),
        0x19 | 0x39 | 0x59 | 0x79 | 0xb9 | 0xbe | 0xbf | 0xd9 | 0xf9 => Some(
            Opcode { len: 3, cycles: 4, mode: AddressingMode::Absolute_Y },
        ),
        0x01 | 0x21 | 0x41 | 0x61 | 0x81 | 0x83 | 0xa1 | 0xa3 | 0xc1 | 0xe1 => Some(
            Opcode { len: 2, cycles: 6, mode: AddressingMode::Indirect_X },
        ),
        0x11 | 0x31 | 0x51 | 0x71 | 0xb1 | 0xb3 | 0xd1 | 0xf1 => Some(
            Opcode { len: 2, cycles: 5, mode: AddressingMode::Indirect_Y },
        ),
        0x0a | 0x18 | 0x1a | 0x2a | 0x38 | 0x3a | 0x4a | 0x58 | 0x5a | 0x6a | 0x78 | 0x7a | 0x88 | 0x8a | 0x98 | 0x9a | 0xa8 | 0xaa | 0xb8 | 0xba | 0xc8 | 0xca | 0xd8 | 0xda | 0xe8 | 0xea | 0xf8 | 0xfa => Some(
            Opcode { len: 1, cycles: 2, mode: AddressingMode::NotSupported },
        ),
        0x06 | 0x26 | 0x46 | 0x66 | 0xc6 | 0xc7 | 0xe6 | 0xe7 => Some(
            Opcode { len: 2, cycles: 5, mode: AddressingMode::ZeroPage },
        ),
        0x16 | 0x36 | 0x56 | 0x76 | 0xd6 | 0xd7 | 0xf6 | 0xf7 => Some(
            Opcode { len: 2, cycles: 6, mode: AddressingMode::ZeroPage_X },
        ),
        0x0e | 0x2e | 0x4e | 0x6e | 0xce | 0xcf | 0xee | 0xef => Some(
            Opcode { len: 3, cycles: 6, mode: AddressingMode::Absolute },
        ),
        0x1e | 0x3e | 0x5e | 0x7e | 0xde | 0xdf | 0xfe | 0xff => Some(
            Opcode { len: 3, cycles: 7, mode: AddressingMode::Absolute_X },
        ),
        0x10 | 0x30 | 0x50 | 0x70 | 0x90 | 0xb0 | 0xd0 | 0xf0 => Some(
            Opcode { len: 2, cycles: 2, mode: AddressingMode::NotSupported },
        ),
        0x4c => Some(
            Opcode { len: 3, cycles: 3, mode: AddressingMode::NotSupported },
        ),
        0x6c => Some(
            Opcode { len: 3, cycles: 5, mode: AddressingMode::NotSupported },
        ),
        0x20 => Some(
            Opcode { len: 3, cycles: 6, mode: AddressingMode::NotSupported },
        ),
        0x40 | 0x60 => Some(
            Opcode { len: 1, cycles: 6, mode: AddressingMode::NotSupported },
        ),
        0x96 | 0x97 | 0xb6 | 0xb7 => Some(
            Opcode { len: 2, cycles: 4, mode: AddressingMode::ZeroPage_Y },
        ),
        0x08 | 0x48 => Some(
            Opcode { len: 1, cycles: 3, mode: AddressingMode::NotSupported },
        ),
        0x28 | 0x68 => Some(
            Opcode { len: 1, cycles: 4, mode: AddressingMode::NotSupported },
        ),
        0x00 => Some(
            Opcode { len: 1, cycles: 7, mode: AddressingMode::NotSupported },
        ),
        0x9d => Some(
            Opcode { len: 3, cycles: 5, mode: AddressingMode::Absolute_X },
        ),
        0x99 | 0x9f => Some(
            Opcode { len: 3, cycles: 5, mode: AddressingMode::Absolute_Y },
        ),
        0x91 | 0x93 => Some(
            Opcode { len: 2, cycles: 6, mode: AddressingMode::Indirect_Y },
        ),
        0xdb | 0xfb => Some(
            Opcode { len: 3, cycles: 7, mode: AddressingMode::Absolute_Y },
        ),
        0xc3 | 0xe3 => Some(
            Opcode { len: 2, cycles: 8, mode: AddressingMode::Indirect_X },
        ),
        0xd3 | 0xf3 => Some(
            Opcode { len: 2, cycles: 8, mode: AddressingMode::Indirect_Y },
        ),
        _ => None,
    }
}

} // verus!
