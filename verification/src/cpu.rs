//! The 6502-family CPU interpreter: the register file, the status flags, the
//! stack discipline, every documented addressing mode, the documented
//! instruction set plus the commonly relied-on undocumented opcodes, and the
//! fetch-execute-tick step that drives the bus clock.
//!
//! Every instruction is specified as a pure transition on [`CpuV`], the
//! mathematical view of the whole machine (CPU registers plus the bus view),
//! and `step` is specified as exactly one such transition. A byte the table
//! does not know, or a fatal write, surfaces as [`StepExit::Fault`]; the
//! break opcode halts the interpreter, a deliberate test-harness behaviour.

use crate::bus::Bus;
use crate::bus::BusV;
use crate::bus::spec_bus_fault;
use crate::bus::spec_bus_read;
use crate::bus::spec_bus_read16;
use crate::bus::spec_bus_tick;
use crate::bus::spec_bus_write;
use crate::bus::spec_bus_write16;
use crate::opcodes::opcode_lookup;
use crate::opcodes::spec_opcode;
use crate::ppu::PpuV;
use vstd::prelude::*;

verus! {

/// How an instruction's operand is located.
#[allow(non_camel_case_types)]
#[derive(Clone, Copy, Debug)]
pub enum AddressingMode {
    Immediate,
    ZeroPage,
    ZeroPage_X,
    ZeroPage_Y,
    Absolute,
    Absolute_X,
    Absolute_Y,
    Indirect_X,
    Indirect_Y,
    NotSupported,
}

/// The processor status flags, carry in bit 0 through negative in bit 7.
#[derive(Clone, Copy, Debug)]
pub enum Flag {
    Carry,
    Zero,
    IRQ,
    Dec,
    Break,
    Break2,
    Overflow,
    Negative,
}

/// How one `step` ended.
#[derive(Clone, Copy, Debug, PartialEq, Eq, Structural)]
pub enum StepExit {
    Running,
    Halt,
    Fault,
}

/// How a bounded `run` ended.
#[derive(Clone, Copy, Debug, PartialEq, Eq, Structural)]
pub enum RunExit {
    Halted,
    Fault,
    StepLimit,
}

/// The CPU: its register file and the bus it owns.
pub struct CPU {
    pub register_a: u8,
    pub register_x: u8,
    pub register_y: u8,
    pub status: u8,
    pub stack_ptr: u8,
    pub program_counter: u16,
    pub bus: Bus,
}

/// The mathematical view of the whole machine.
#[verifier::ext_equal]
pub struct CpuV {
    pub register_a: u8,
    pub register_x: u8,
    pub register_y: u8,
    pub status: u8,
    pub stack_ptr: u8,
    pub program_counter: u16,
    pub bus: BusV,
}

impl View for CPU {
    type V = CpuV;

    open spec fn view(&self) -> CpuV {
        CpuV {
            register_a: self.register_a,
            register_x: self.register_x,
            register_y: self.register_y,
            status: self.status,
            stack_ptr: self.stack_ptr,
            program_counter: self.program_counter,
            bus: self.bus@,
        }
    }
}

impl CpuV {
    /// Well-formedness of the machine: the bus's memory shapes hold.
    pub open spec fn wf(self) -> bool {
        self.bus.wf()
    }
}

/// The bit each status flag occupies.
pub open spec fn flag_mask(f: Flag) -> u8 {
    match f {
        Flag::Carry => 0b0000_0001,
        Flag::Zero => 0b0000_0010,
        Flag::IRQ => 0b0000_0100,
        Flag::Dec => 0b0000_1000,
        Flag::Break => 0b0001_0000,
        Flag::Break2 => 0b0010_0000,
        Flag::Overflow => 0b0100_0000,
        Flag::Negative => 0b1000_0000,
    }
}

/// The complement of `flag_mask`, spelled out so that contracts stay within
/// plain bit operations.
pub open spec fn flag_clear_mask(f: Flag) -> u8 {
    match f {
        Flag::Carry => 0b1111_1110,
        Flag::Zero => 0b1111_1101,
        Flag::IRQ => 0b1111_1011,
        Flag::Dec => 0b1111_0111,
        Flag::Break => 0b1110_1111,
        Flag::Break2 => 0b1101_1111,
        Flag::Overflow => 0b1011_1111,
        Flag::Negative => 0b0111_1111,
    }
}

/// Whether `f` is set in the status byte `p`.
pub open spec fn spec_flag_set(p: u8, f: Flag) -> bool {
    p & flag_mask(f) != 0
}

/// The status byte with `f` set.
pub open spec fn spec_enable(p: u8, f: Flag) -> u8 {
    p | flag_mask(f)
}

/// The status byte with `f` cleared.
pub open spec fn spec_disable(p: u8, f: Flag) -> u8 {
    p & flag_clear_mask(f)
}

/// The zero and negative flags refreshed from a result byte.
pub open spec fn spec_zn(p: u8, v: u8) -> u8 {
    let p1 = if v == 0 {
        spec_enable(p, Flag::Zero)
    } else {
        spec_disable(p, Flag::Zero)
    };
    if v & 0x80 != 0 {
        spec_enable(p1, Flag::Negative)
    } else {
        spec_disable(p1, Flag::Negative)
    }
}

/// A displacement byte sign-extended to sixteen bits.
pub open spec fn spec_sign_extend(d: u8) -> u16 {
    if d < 0x80 {
        d as u16
    } else {
        (d + 0xff00) as u16
    }
}

/// One memory read, lifted to the machine view.
pub open spec fn cpu_read(c: CpuV, addr: u16) -> (CpuV, u8) {
    let (b, v) = spec_bus_read(c.bus, addr);
    (CpuV { bus: b, ..c }, v)
}

/// One memory write, lifted to the machine view.
pub open spec fn cpu_write(c: CpuV, addr: u16, data: u8) -> CpuV {
    CpuV { bus: spec_bus_write(c.bus, addr, data), ..c }
}

/// A 16-bit little-endian read, lifted to the machine view.
pub open spec fn cpu_read16(c: CpuV, pos: u16) -> (CpuV, u16) {
    let (b, v) = spec_bus_read16(c.bus, pos);
    (CpuV { bus: b, ..c }, v)
}

/// One byte pushed: it lands in the fixed stack page at the stack pointer,
/// which then moves down with wrap-around.
pub open spec fn spec_push(c: CpuV, data: u8) -> CpuV {
    let c1 = cpu_write(c, (0x100 + c.stack_ptr) as u16, data);
    CpuV { stack_ptr: c.stack_ptr.wrapping_sub(1), ..c1 }
}

/// One byte popped: the stack pointer moves up first, with wrap-around, and
/// the byte at the new position comes back.
pub open spec fn spec_pop(c: CpuV) -> (CpuV, u8) {
    let sp = c.stack_ptr.wrapping_add(1);
    cpu_read(CpuV { stack_ptr: sp, ..c }, (0x100 + sp) as u16)
}

/// A word pushed big-end first, so that it pops back little-end first.
pub open spec fn spec_push_u16(c: CpuV, data: u16) -> CpuV {
    spec_push(spec_push(c, (data / 256) as u8), (data % 256) as u8)
}

/// A word popped: low byte first, then high.
pub open spec fn spec_pop_u16(c: CpuV) -> (CpuV, u16) {
    let (c1, lo) = spec_pop(c);
    let (c2, hi) = spec_pop(c1);
    (c2, (hi * 256 + lo) as u16)
}

/// The effective operand address for a mode, with the operand bytes taken
/// from `pc`. Immediate operands live in-line, zero-page indexing wraps
/// within page zero, absolute indexing wraps at sixteen bits, and the two
/// indirect modes read their pointers from page zero with page-zero wrap.
/// `NotSupported` marks forms whose operands the dispatcher decodes itself;
/// resolving it is a fatal condition.
pub open spec fn spec_operand_addr_at(c: CpuV, mode: AddressingMode, pc: u16) -> (CpuV, u16) {
    match mode {
        AddressingMode::Immediate => (c, c.program_counter),
        AddressingMode::ZeroPage => {
            let (c1, v) = cpu_read(c, pc);
            (c1, v as u16)
        },
        AddressingMode::ZeroPage_X => {
            let (c1, v) = cpu_read(c, pc);
            (c1, v.wrapping_add(c.register_x) as u16)
        },
        AddressingMode::ZeroPage_Y => {
            let (c1, v) = cpu_read(c, pc);
            (c1, v.wrapping_add(c.register_y) as u16)
        },
        AddressingMode::Absolute => cpu_read16(c, pc),
        AddressingMode::Absolute_X => {
            let (c1, w) = cpu_read16(c, pc);
            (c1, w.wrapping_add(c.register_x as u16))
        },
        AddressingMode::Absolute_Y => {
            let (c1, w) = cpu_read16(c, pc);
            (c1, w.wrapping_add(c.register_y as u16))
        },
        AddressingMode::Indirect_X => {
            let (c1, v) = cpu_read(c, pc);
            let ptr = v.wrapping_add(c.register_x);
            let (c2, lo) = cpu_read(c1, ptr as u16);
            let (c3, hi) = cpu_read(c2, ptr.wrapping_add(1) as u16);
            (c3, (hi * 256 + lo) as u16)
        },
        AddressingMode::Indirect_Y => {
            let (c1, v) = cpu_read(c, pc);
            let (c2, lo) = cpu_read(c1, v as u16);
            let (c3, hi) = cpu_read(c2, v.wrapping_add(1) as u16);
            (c3, ((hi * 256 + lo) as u16).wrapping_add(c.register_y as u16))
        },
        AddressingMode::NotSupported => (
            CpuV { bus: (BusV { fault: true, ..c.bus }), ..c },
            0,
        ),
    }
}

/// The effective operand address with the operand taken at the current
/// program counter.
pub open spec fn spec_operand_addr(c: CpuV, mode: AddressingMode) -> (CpuV, u16) {
    spec_operand_addr_at(c, mode, c.program_counter)
}

/// The binary add into the accumulator: carry in, carry out on unsigned
/// overflow, signed overflow from the sign-comparison formula.
pub open spec fn spec_add(c: CpuV, addend: u8) -> CpuV {
    let cin: int = if spec_flag_set(c.status, Flag::Carry) {
        1
    } else {
        0
    };
    let sum = c.register_a + addend + cin;
    let p1 = if sum > 255 {
        spec_enable(c.status, Flag::Carry)
    } else {
        spec_disable(c.status, Flag::Carry)
    };
    let result = (sum % 256) as u8;
    let p2 = if (c.register_a ^ result) & (addend ^ result) & 0x80 == 0 {
        spec_disable(p1, Flag::Overflow)
    } else {
        spec_enable(p1, Flag::Overflow)
    };
    CpuV { register_a: result, status: p2, ..c }
}

/// Add with carry from a memory operand, refreshing zero and negative.
#[verifier::opaque]
pub open spec fn spec_adc(c: CpuV, mode: AddressingMode) -> CpuV {
    let (c1, addr) = spec_operand_addr(c, mode);
    let (c2, m) = cpu_read(c1, addr);
    let c3 = spec_add(c2, m);
    CpuV { status: spec_zn(c3.status, c3.register_a), ..c3 }
}

/// Subtract with borrow: the operand's complement goes through the adder.
#[verifier::opaque]
pub open spec fn spec_sbc(c: CpuV, mode: AddressingMode) -> CpuV {
    let (c1, addr) = spec_operand_addr(c, mode);
    let (c2, m) = cpu_read(c1, addr);
    let c3 = spec_add(c2, (255 - m) as u8);
    CpuV { status: spec_zn(c3.status, c3.register_a), ..c3 }
}

/// Bitwise and into the accumulator.
#[verifier::opaque]
pub open spec fn spec_and(c: CpuV, mode: AddressingMode) -> CpuV {
    let (c1, addr) = spec_operand_addr(c, mode);
    let (c2, m) = cpu_read(c1, addr);
    let a = c2.register_a & m;
    CpuV { register_a: a, status: spec_zn(c2.status, a), ..c2 }
}

/// Bitwise exclusive-or into the accumulator.
#[verifier::opaque]
pub open spec fn spec_eor(c: CpuV, mode: AddressingMode) -> CpuV {
    let (c1, addr) = spec_operand_addr(c, mode);
    let (c2, m) = cpu_read(c1, addr);
    let a = c2.register_a ^ m;
    CpuV { register_a: a, status: spec_zn(c2.status, a), ..c2 }
}

/// Bitwise or into the accumulator.
#[verifier::opaque]
pub open spec fn spec_ora(c: CpuV, mode: AddressingMode) -> CpuV {
    let (c1, addr) = spec_operand_addr(c, mode);
    let (c2, m) = cpu_read(c1, addr);
    let a = c2.register_a | m;
    CpuV { register_a: a, status: spec_zn(c2.status, a), ..c2 }
}

/// Arithmetic shift left of the accumulator: bit 7 leaves through carry.
pub open spec fn spec_asl_accumulator(c: CpuV) -> CpuV {
    let p1 = if c.register_a > 0x7f {
        spec_enable(c.status, Flag::Carry)
    } else {
        spec_disable(c.status, Flag::Carry)
    };
    let a = c.register_a << 1;
    CpuV { register_a: a, status: spec_zn(p1, a), ..c }
}

/// Arithmetic shift left in memory.
#[verifier::opaque]
pub open spec fn spec_asl(c: CpuV, mode: AddressingMode) -> CpuV {
    let (c1, addr) = spec_operand_addr(c, mode);
    let (c2, m) = cpu_read(c1, addr);
    let p1 = if m > 0x7f {
        spec_enable(c2.status, Flag::Carry)
    } else {
        spec_disable(c2.status, Flag::Carry)
    };
    let v = m << 1;
    let c3 = cpu_write(CpuV { status: p1, ..c2 }, addr, v);
    CpuV { status: spec_zn(c3.status, v), ..c3 }
}

/// Logical shift right of the accumulator: bit 0 leaves through carry.
pub open spec fn spec_lsr_accumulator(c: CpuV) -> CpuV {
    let p1 = if c.register_a & 1 == 1 {
        spec_enable(c.status, Flag::Carry)
    } else {
        spec_disable(c.status, Flag::Carry)
    };
    let a = c.register_a >> 1;
    CpuV { register_a: a, status: spec_zn(p1, a), ..c }
}

/// Logical shift right in memory.
#[verifier::opaque]
pub open spec fn spec_lsr(c: CpuV, mode: AddressingMode) -> CpuV {
    let (c1, addr) = spec_operand_addr(c, mode);
    let (c2, m) = cpu_read(c1, addr);
    let p1 = if m & 1 == 1 {
        spec_enable(c2.status, Flag::Carry)
    } else {
        spec_disable(c2.status, Flag::Carry)
    };
    let v = m >> 1;
    let c3 = cpu_write(CpuV { status: p1, ..c2 }, addr, v);
    CpuV { status: spec_zn(c3.status, v), ..c3 }
}

/// Rotate left of the accumulator: the old carry enters bit 0.
pub open spec fn spec_rol_accumulator(c: CpuV) -> CpuV {
    let carry_isolate = c.status & 1;
    let p1 = if c.register_a > 0x7f {
        spec_enable(c.status, Flag::Carry)
    } else {
        spec_disable(c.status, Flag::Carry)
    };
    let a1 = c.register_a << 1;
    let a2 = if carry_isolate == 1 {
        a1 | carry_isolate
    } else {
        a1 & 0xfe
    };
    CpuV { register_a: a2, status: spec_zn(p1, a2), ..c }
}

/// Rotate left in memory.
#[verifier::opaque]
pub open spec fn spec_rol(c: CpuV, mode: AddressingMode) -> CpuV {
    let (c1, addr) = spec_operand_addr(c, mode);
    let (c2, m) = cpu_read(c1, addr);
    let carry_isolate = c2.status & 1;
    let p1 = if m > 0x7f {
        spec_enable(c2.status, Flag::Carry)
    } else {
        spec_disable(c2.status, Flag::Carry)
    };
    let v1 = m << 1;
    let v2 = if carry_isolate == 1 {
        v1 | carry_isolate
    } else {
        v1
    };
    let c3 = cpu_write(CpuV { status: p1, ..c2 }, addr, v2);
    CpuV { status: spec_zn(c3.status, v2), ..c3 }
}

/// Rotate right of the accumulator: the old carry enters bit 7.
pub open spec fn spec_ror_accumulator(c: CpuV) -> CpuV {
    let carry_isolate = c.status & 1;
    let p1 = if c.register_a & 1 == 1 {
        spec_enable(c.status, Flag::Carry)
    } else {
        spec_disable(c.status, Flag::Carry)
    };
    let a1 = c.register_a >> 1;
    let a2 = if carry_isolate != 0 {
        a1 | 0x80
    } else {
        a1
    };
    CpuV { register_a: a2, status: spec_zn(p1, a2), ..c }
}

/// Rotate right in memory.
#[verifier::opaque]
pub open spec fn spec_ror(c: CpuV, mode: AddressingMode) -> CpuV {
    let (c1, addr) = spec_operand_addr(c, mode);
    let (c2, m) = cpu_read(c1, addr);
    let carry_isolate = c2.status & 1;
    let p1 = if m & 1 == 1 {
        spec_enable(c2.status, Flag::Carry)
    } else {
        spec_disable(c2.status, Flag::Carry)
    };
    let v1 = m >> 1;
    let v2 = if carry_isolate != 0 {
        v1 | 0x80
    } else {
        v1
    };
    let c3 = cpu_write(CpuV { status: p1, ..c2 }, addr, v2);
    CpuV { status: spec_zn(c3.status, v2), ..c3 }
}

/// Bit test: zero from the masked accumulator, negative and overflow copied
/// from the operand's top bits.
#[verifier::opaque]
pub open spec fn spec_bit(c: CpuV, mode: AddressingMode) -> CpuV {
    let (c1, addr) = spec_operand_addr(c, mode);
    let (c2, m) = cpu_read(c1, addr);
    let operand = c2.register_a & m;
    let p1 = if operand == 0 {
        spec_enable(c2.status, Flag::Zero)
    } else {
        spec_disable(c2.status, Flag::Zero)
    };
    let p2 = if m & 0x80 != 0 {
        spec_enable(p1, Flag::Negative)
    } else {
        spec_disable(p1, Flag::Negative)
    };
    let p3 = if m & 0x40 != 0 {
        spec_enable(p2, Flag::Overflow)
    } else {
        spec_disable(p2, Flag::Overflow)
    };
    CpuV { status: p3, ..c2 }
}

/// A conditional branch: when the flag matches `want`, the displacement byte
/// is read and the program counter moves past it plus the sign-extended
/// displacement; otherwise nothing happens here and the dispatcher advances
/// past the displacement byte.
pub open spec fn spec_branch(c: CpuV, flag: Flag, want: bool) -> CpuV {
    if spec_flag_set(c.status, flag) == want {
        let (c1, d) = cpu_read(c, c.program_counter);
        CpuV {
            program_counter: c.program_counter.wrapping_add(1).wrapping_add(spec_sign_extend(d)),
            ..c1
        }
    } else {
        c
    }
}

/// A register-to-memory comparison: carry when the register is at least the
/// operand, zero and negative from their wrapped difference.
#[verifier::opaque]
pub open spec fn spec_compare(c: CpuV, mode: AddressingMode, reg: u8) -> CpuV {
    let (c1, addr) = spec_operand_addr(c, mode);
    let (c2, m) = cpu_read(c1, addr);
    let p1 = if reg >= m {
        spec_enable(c2.status, Flag::Carry)
    } else {
        spec_disable(c2.status, Flag::Carry)
    };
    CpuV { status: spec_zn(p1, reg.wrapping_sub(m)), ..c2 }
}

/// Decrement in memory.
#[verifier::opaque]
pub open spec fn spec_dec(c: CpuV, mode: AddressingMode) -> CpuV {
    let (c1, addr) = spec_operand_addr(c, mode);
    let (c2, m) = cpu_read(c1, addr);
    let v = m.wrapping_sub(1);
    let c3 = cpu_write(c2, addr, v);
    CpuV { status: spec_zn(c3.status, v), ..c3 }
}

/// Increment in memory.
#[verifier::opaque]
pub open spec fn spec_inc(c: CpuV, mode: AddressingMode) -> CpuV {
    let (c1, addr) = spec_operand_addr(c, mode);
    let (c2, m) = cpu_read(c1, addr);
    let v = m.wrapping_add(1);
    let c3 = cpu_write(c2, addr, v);
    CpuV { status: spec_zn(c3.status, v), ..c3 }
}

/// Load the accumulator.
#[verifier::opaque]
pub open spec fn spec_lda(c: CpuV, mode: AddressingMode) -> CpuV {
    let (c1, addr) = spec_operand_addr(c, mode);
    let (c2, m) = cpu_read(c1, addr);
    CpuV { register_a: m, status: spec_zn(c2.status, m), ..c2 }
}

/// Load the X index.
#[verifier::opaque]
pub open spec fn spec_ldx(c: CpuV, mode: AddressingMode) -> CpuV {
    let (c1, addr) = spec_operand_addr(c, mode);
    let (c2, m) = cpu_read(c1, addr);
    CpuV { register_x: m, status: spec_zn(c2.status, m), ..c2 }
}

/// Load the Y index.
#[verifier::opaque]
pub open spec fn spec_ldy(c: CpuV, mode: AddressingMode) -> CpuV {
    let (c1, addr) = spec_operand_addr(c, mode);
    let (c2, m) = cpu_read(c1, addr);
    CpuV { register_y: m, status: spec_zn(c2.status, m), ..c2 }
}

/// Store the accumulator.
#[verifier::opaque]
pub open spec fn spec_sta(c: CpuV, mode: AddressingMode) -> CpuV {
    let (c1, addr) = spec_operand_addr(c, mode);
    cpu_write(c1, addr, c.register_a)
}

/// Store the X index.
#[verifier::opaque]
pub open spec fn spec_stx(c: CpuV, mode: AddressingMode) -> CpuV {
    let (c1, addr) = spec_operand_addr(c, mode);
    cpu_write(c1, addr, c.register_x)
}

/// Store the Y index.
#[verifier::opaque]
pub open spec fn spec_sty(c: CpuV, mode: AddressingMode) -> CpuV {
    let (c1, addr) = spec_operand_addr(c, mode);
    cpu_write(c1, addr, c.register_y)
}

/// Store the accumulator anded with X; no flags change.
#[verifier::opaque]
pub open spec fn spec_sax(c: CpuV, mode: AddressingMode) -> CpuV {
    let (c1, addr) = spec_operand_addr(c, mode);
    cpu_write(c1, addr, c.register_x & c.register_a)
}

/// Copy the accumulator into X, refreshing zero and negative.
pub open spec fn spec_tax(c: CpuV) -> CpuV {
    CpuV { register_x: c.register_a, status: spec_zn(c.status, c.register_a), ..c }
}

/// The NMI service sequence: the return address and the status byte (break
/// cleared, unused set) go onto the stack, interrupts are masked, and
/// control jumps through the NMI vector.
pub open spec fn spec_interrupt_nmi(c: CpuV) -> CpuV {
    let c1 = spec_push_u16(c, c.program_counter);
    let p = (c.status & flag_clear_mask(Flag::Break)) | flag_mask(Flag::Break2);
    let c2 = spec_push(c1, p);
    let c3 = CpuV { status: spec_enable(c2.status, Flag::IRQ), ..c2 };
    let (c4, target) = cpu_read16(c3, 0xfffa);
    CpuV { program_counter: target, ..c4 }
}

/// The dispatcher's quadrant for opcode bytes below `0x40`.
#[verifier::opaque]
pub open spec fn spec_execute_q0(c: CpuV, op: u8, mode: AddressingMode) -> CpuV {
    match op {
        0x29 | 0x25 | 0x35 | 0x2d | 0x3d | 0x39 | 0x21 | 0x31 => spec_and(c, mode),
        0x0a => spec_asl_accumulator(c),
        0x06 | 0x16 | 0x0e | 0x1e => spec_asl(c, mode),
        0x24 | 0x2c => spec_bit(c, mode),
        0x30 => spec_branch(c, Flag::Negative, true),
        0x10 => spec_branch(c, Flag::Negative, false),
        0x18 => CpuV { status: spec_disable(c.status, Flag::Carry), ..c },
        0x20 => {
            let (c1, addr) = spec_operand_addr(c, AddressingMode::Absolute);
            let c2 = spec_push_u16(c1, c1.program_counter.wrapping_add(1));
            CpuV { program_counter: addr, ..c2 }
        },
        0x09 | 0x05 | 0x15 | 0x0d | 0x1d | 0x19 | 0x01 | 0x11 => spec_ora(c, mode),
        0x08 => spec_push(c, c.status | 0x30),
        0x28 => {
            let (c1, v) = spec_pop(c);
            CpuV {
                status: spec_enable(spec_disable(v, Flag::Break), Flag::Break2),
                ..c1
            }
        },
        0x2a => spec_rol_accumulator(c),
        0x26 | 0x36 | 0x2e | 0x3e => spec_rol(c, mode),
        0x38 => CpuV { status: spec_enable(c.status, Flag::Carry), ..c },
        0x1a | 0x3a => c,
        0x0b | 0x2b => {
            let (c1, m) = cpu_read(c, c.program_counter);
            let result = c1.register_a & m;
            let p1 = if result & 0x80 != 0 {
                spec_enable(c1.status, Flag::Carry)
            } else {
                spec_disable(c1.status, Flag::Carry)
            };
            CpuV { register_a: result, status: spec_zn(p1, result), ..c1 }
        },
        0x0c | 0x1c | 0x3c | 0x04 | 0x14 | 0x34 => {
            let (c1, addr) = spec_operand_addr(c, mode);
            cpu_read(c1, addr).0
        },
        _ => c,
    }
}

/// The dispatcher's quadrant for opcode bytes `0x40` to `0x7f`.
#[verifier::opaque]
pub open spec fn spec_execute_q1(c: CpuV, op: u8, mode: AddressingMode) -> CpuV {
    match op {
        0x69 | 0x65 | 0x75 | 0x6d | 0x7d | 0x79 | 0x61 | 0x71 => spec_adc(c, mode),
        0x50 => spec_branch(c, Flag::Overflow, false),
        0x70 => spec_branch(c, Flag::Overflow, true),
        0x58 => CpuV { status: spec_disable(c.status, Flag::IRQ), ..c },
        0x49 | 0x45 | 0x55 | 0x4d | 0x5d | 0x59 | 0x41 | 0x51 => spec_eor(c, mode),
        0x4c => {
            let (c1, addr) = spec_operand_addr(c, AddressingMode::Absolute);
            CpuV { program_counter: addr, ..c1 }
        },
        0x6c => {
            let (c1, addr) = cpu_read16(c, c.program_counter);
            if addr % 256 == 255 {
                let (c2, lo) = cpu_read(c1, addr);
                let (c3, hi) = cpu_read(c2, (addr - 255) as u16);
                CpuV { program_counter: (hi * 256 + lo) as u16, ..c3 }
            } else {
                let (c2, target) = cpu_read16(c1, addr);
                CpuV { program_counter: target, ..c2 }
            }
        },
        0x60 => {
            let (c1, target) = spec_pop_u16(c);
            CpuV { program_counter: target.wrapping_add(1), ..c1 }
        },
        0x4a => spec_lsr_accumulator(c),
        0x46 | 0x56 | 0x4e | 0x5e => spec_lsr(c, mode),
        0x48 => spec_push(c, c.register_a),
        0x68 => {
            let (c1, v) = spec_pop(c);
            CpuV { register_a: v, status: spec_zn(c1.status, v), ..c1 }
        },
        0x6a => spec_ror_accumulator(c),
        0x66 | 0x76 | 0x6e | 0x7e => spec_ror(c, mode),
        0x40 => {
            let (c1, v) = spec_pop(c);
            let c2 = CpuV {
                status: spec_enable(spec_disable(v, Flag::Break), Flag::Break2),
                ..c1
            };
            let (c3, target) = spec_pop_u16(c2);
            CpuV { program_counter: target, ..c3 }
        },
        0x78 => CpuV { status: spec_enable(c.status, Flag::IRQ), ..c },
        0x5a | 0x7a => c,
        0x4b => {
            let (c1, m) = cpu_read(c, c.program_counter);
            spec_lsr_accumulator(CpuV { register_a: (c1.register_a & m) as u8, ..c1 })
        },
        0x6b => {
            let (c1, m) = cpu_read(c, c.program_counter);
            let c2 = spec_ror_accumulator(CpuV { register_a: (c1.register_a & m) as u8, ..c1 });
            let b5 = c2.register_a & 0x20 != 0;
            let b6 = c2.register_a & 0x40 != 0;
            let p1 = if b6 {
                spec_enable(c2.status, Flag::Carry)
            } else {
                spec_disable(c2.status, Flag::Carry)
            };
            let p2 = if b6 != b5 {
                spec_enable(p1, Flag::Overflow)
            } else {
                spec_disable(p1, Flag::Overflow)
            };
            CpuV { status: p2, ..c2 }
        },
        0x5c | 0x7c | 0x44 | 0x64 | 0x54 | 0x74 => {
            let (c1, addr) = spec_operand_addr(c, mode);
            cpu_read(c1, addr).0
        },
        _ => c,
    }
}

/// The dispatcher's quadrant for opcode bytes `0x80` to `0xbf`.
#[verifier::opaque]
pub open spec fn spec_execute_q2(c: CpuV, op: u8, mode: AddressingMode) -> CpuV {
    match op {
        0x90 => spec_branch(c, Flag::Carry, false),
        0xb0 => spec_branch(c, Flag::Carry, true),
        0xb8 => CpuV { status: spec_disable(c.status, Flag::Overflow), ..c },
        0x88 => CpuV {
            register_y: c.register_y.wrapping_sub(1),
            status: spec_zn(c.status, c.register_y.wrapping_sub(1)),
            ..c
        },
        0xa9 | 0xa5 | 0xb5 | 0xad | 0xbd | 0xb9 | 0xa1 | 0xb1 => spec_lda(c, mode),
        0xa2 | 0xa6 | 0xb6 | 0xae | 0xbe => spec_ldx(c, mode),
        0xa0 | 0xa4 | 0xb4 | 0xac | 0xbc => spec_ldy(c, mode),
        0x85 | 0x95 | 0x8d | 0x9d | 0x99 | 0x81 | 0x91 => spec_sta(c, mode),
        0x86 | 0x96 | 0x8e => spec_stx(c, mode),
        0x84 | 0x94 | 0x8c => spec_sty(c, mode),
        0xaa => spec_tax(c),
        0xa8 => CpuV { register_y: c.register_a, status: spec_zn(c.status, c.register_a), ..c },
        0xba => CpuV { register_x: c.stack_ptr, status: spec_zn(c.status, c.stack_ptr), ..c },
        0x8a => CpuV { register_a: c.register_x, status: spec_zn(c.status, c.register_x), ..c },
        0x9a => CpuV { stack_ptr: c.register_x, ..c },
        0x98 => CpuV { register_a: c.register_y, status: spec_zn(c.status, c.register_y), ..c },
        0xa3 | 0xa7 | 0xaf | 0xb3 | 0xb7 | 0xbf => spec_tax(spec_lda(c, mode)),
        0xab => {
            let (c1, m) = cpu_read(c, c.program_counter);
            let a = c1.register_a & m;
            spec_tax(CpuV { register_a: a, status: spec_zn(c1.status, a), ..c1 })
        },
        0x87 | 0x97 | 0x83 | 0x8f => spec_sax(c, mode),
        0x9f | 0x93 => c,
        0x80 | 0x82 | 0x89 => cpu_read(c, c.program_counter).0,
        _ => c,
    }
}

/// The dispatcher's quadrant for opcode bytes `0xc0` and up.
#[verifier::opaque]
pub open spec fn spec_execute_q3(c: CpuV, op: u8, mode: AddressingMode) -> CpuV {
    match op {
        0xf0 => spec_branch(c, Flag::Zero, true),
        0xd0 => spec_branch(c, Flag::Zero, false),
        0xd8 => CpuV { status: spec_disable(c.status, Flag::Dec), ..c },
        0xc9 | 0xc5 | 0xd5 | 0xcd | 0xdd | 0xd9 | 0xc1 | 0xd1 => spec_compare(
            c,
            mode,
            c.register_a,
        ),
        0xe0 | 0xe4 | 0xec => spec_compare(c, mode, c.register_x),
        0xc0 | 0xc4 | 0xcc => spec_compare(c, mode, c.register_y),
        0xc6 | 0xd6 | 0xce | 0xde => spec_dec(c, mode),
        0xca => CpuV {
            register_x: c.register_x.wrapping_sub(1),
            status: spec_zn(c.status, c.register_x.wrapping_sub(1)),
            ..c
        },
        0xe6 | 0xf6 | 0xee | 0xfe => spec_inc(c, mode),
        0xe8 => CpuV {
            register_x: c.register_x.wrapping_add(1),
            status: spec_zn(c.status, c.register_x.wrapping_add(1)),
            ..c
        },
        0xc8 => CpuV {
            register_y: c.register_y.wrapping_add(1),
            status: spec_zn(c.status, c.register_y.wrapping_add(1)),
            ..c
        },
        0xe9 | 0xe5 | 0xf5 | 0xed | 0xfd | 0xf9 | 0xe1 | 0xf1 => spec_sbc(c, mode),
        0xf8 => CpuV { status: spec_enable(c.status, Flag::Dec), ..c },
        0xea | 0xda | 0xfa => c,
        0xcb => {
            let (c1, operand) = cpu_read(c, c.program_counter);
            let andresult = c1.register_a & c1.register_x;
            let result = andresult.wrapping_sub(operand);
            let p1 = if operand <= andresult {
                spec_enable(c1.status, Flag::Carry)
            } else {
                c1.status
            };
            CpuV { register_x: result, status: spec_zn(p1, result), ..c1 }
        },
        0xc3 | 0xc7 | 0xcf | 0xd3 | 0xd7 | 0xdb | 0xdf => {
            let c1 = spec_dec(c, mode);
            spec_compare(c1, mode, c1.register_a)
        },
        0xdc | 0xfc | 0xd4 | 0xf4 => {
            let (c1, addr) = spec_operand_addr(c, mode);
            cpu_read(c1, addr).0
        },
        0xe3 | 0xe7 | 0xef | 0xf3 | 0xf7 | 0xfb | 0xff => spec_sbc(spec_inc(c, mode), mode),
        0xeb => {
            let (c1, operand) = cpu_read(c, c.program_counter);
            let c2 = spec_add(c1, (255 - operand) as u8);
            CpuV { status: spec_zn(c2.status, c2.register_a), ..c2 }
        },
        0xc2 | 0xe2 => cpu_read(c, c.program_counter).0,
        _ => c,
    }
}

/// The dispatcher: the state transition of one already-fetched instruction
/// byte, the break opcode excluded, split across the four opcode quadrants.
pub open spec fn spec_execute(c: CpuV, op: u8, mode: AddressingMode) -> CpuV {
    if op < 0x40 {
        spec_execute_q0(c, op, mode)
    } else if op < 0x80 {
        spec_execute_q1(c, op, mode)
    } else if op < 0xc0 {
        spec_execute_q2(c, op, mode)
    } else {
        spec_execute_q3(c, op, mode)
    }
}

/// One whole interpreter step: a pending fault stops the machine; a pending
/// NMI is serviced first; then one instruction is fetched, decoded, executed,
/// the program counter advanced past its operands unless the instruction
/// moved it, and the bus clock advanced by the instruction's cycles.
#[verifier::opaque]
pub open spec fn spec_step(c: CpuV) -> (CpuV, StepExit) {
    if spec_bus_fault(c.bus) {
        (c, StepExit::Fault)
    } else {
        let polled = c.bus.ppu.nmi_interrupt;
        let c1 = CpuV {
            bus: (BusV { ppu: (PpuV { nmi_interrupt: None, ..c.bus.ppu }), ..c.bus }),
            ..c
        };
        let c2 = if polled is Some {
            spec_interrupt_nmi(c1)
        } else {
            c1
        };
        let (c3, op) = cpu_read(c2, c2.program_counter);
        match spec_opcode(op) {
            None => (c3, StepExit::Fault),
            Some(d) => {
                let c4 = CpuV { program_counter: c3.program_counter.wrapping_add(1), ..c3 };
                if op == 0 {
                    (c4, StepExit::Halt)
                } else {
                    let c5 = spec_execute(c4, op, d.mode);
                    if spec_bus_fault(c5.bus) {
                        (c5, StepExit::Fault)
                    } else {
                        let c6 = if c5.program_counter == c4.program_counter {
                            CpuV {
                                program_counter: c5.program_counter.wrapping_add(
                                    (d.len - 1) as u16,
                                ),
                                ..c5
                            }
                        } else {
                            c5
                        };
                        let c7 = CpuV { bus: spec_bus_tick(c6.bus, d.cycles).0, ..c6 };
                        (c7, StepExit::Running)
                    }
                }
            },
        }
    }
}

/// The reset sequence: registers cleared, interrupts masked and unused set,
/// the stack pointer at its hardware reset value, and control taken from the
/// reset vector.
pub open spec fn spec_reset(c: CpuV) -> CpuV {
    let c1 = CpuV {
        register_a: 0,
        register_x: 0,
        register_y: 0,
        status: 0b0010_0100,
        stack_ptr: 0xfd,
        ..c
    };
    let (c2, target) = cpu_read16(c1, 0xfffc);
    CpuV { program_counter: target, ..c2 }
}

/// The program loader: bytes copied one after another through the bus,
/// beginning at `0x0600`.
pub open spec fn spec_load_from(c: CpuV, program: Seq<u8>, i: int) -> CpuV
    decreases program.len() - i,
{
    if i < 0 || i >= program.len() {
        c
    } else {
        spec_load_from(cpu_write(c, (0x600 + i) as u16, program[i]), program, i + 1)
    }
}

/// A bounded run: steps are taken until the interpreter halts on the break
/// opcode, faults, or the step budget runs out.
pub open spec fn spec_run(c: CpuV, fuel: nat) -> (CpuV, RunExit)
    decreases fuel,
{
    if fuel == 0 {
        (c, RunExit::StepLimit)
    } else {
        let (c1, e) = spec_step(c);
        match e {
            StepExit::Running => spec_run(c1, (fuel - 1) as nat),
            StepExit::Halt => (c1, RunExit::Halted),
            StepExit::Fault => (c1, RunExit::Fault),
        }
    }
}

/// Every table entry has a length between one and three bytes and at most
/// eight base cycles.
pub proof fn lemma_opcode_bounds(op: u8)
    ensures
        spec_opcode(op) matches Some(d) ==> 1 <= d.len <= 3 && d.cycles <= 8,
{
}

impl CPU {
    /// A CPU over a bus, in the power-on register state with the program
    /// counter still unset.
    pub fn new(bus: Bus) -> (r: CPU)
        ensures
            r@ == (CpuV {
                register_a: 0,
                register_x: 0,
                register_y: 0,
                status: 0b0010_0100,
                stack_ptr: 0xfd,
                program_counter: 0,
                bus: bus@,
            }),
    {
        CPU {
            register_a: 0,
            register_x: 0,
            register_y: 0,
            status: 0b0010_0100,
            stack_ptr: 0xfd,
            program_counter: 0,
            bus,
        }
    }

    /// One memory read through the bus.
    pub fn mem_read(&mut self, addr: u16) -> (r: u8)
        requires
            old(self)@.wf(),
        ensures
            (final(self)@, r) == cpu_read(old(self)@, addr),
            final(self)@.wf(),
    {
        self.bus.mem_read(addr)
    }

    /// One memory write through the bus.
    pub fn mem_write(&mut self, addr: u16, data: u8)
        requires
            old(self)@.wf(),
        ensures
            final(self)@ == cpu_write(old(self)@, addr, data),
            final(self)@.wf(),
    {
        self.bus.mem_write(addr, data);
    }

    /// A 16-bit little-endian read through the bus.
    pub fn mem_read_u16(&mut self, pos: u16) -> (r: u16)
        requires
            old(self)@.wf(),
        ensures
            (final(self)@, r) == cpu_read16(old(self)@, pos),
            final(self)@.wf(),
    {
        self.bus.mem_read_u16(pos)
    }

    /// A 16-bit little-endian write through the bus.
    pub fn mem_write_u16(&mut self, pos: u16, data: u16)
        requires
            old(self)@.wf(),
        ensures
            final(self)@ == (CpuV {
                bus: spec_bus_write16(old(self)@.bus, pos, data),
                ..old(self)@
            }),
            final(self)@.wf(),
    {
        self.bus.mem_write_u16(pos, data);
    }

    fn stack_push(&mut self, data: u8)
        requires
            old(self)@.wf(),
        ensures
            final(self)@ == spec_push(old(self)@, data),
            final(self)@.wf(),
    {
        let addr = 0x100 + self.stack_ptr as u16;
        self.mem_write(addr, data);
        self.stack_ptr = self.stack_ptr.wrapping_sub(1);
    }

    fn stack_pop(&mut self) -> (r: u8)
        requires
            old(self)@.wf(),
        ensures
            (final(self)@, r) == spec_pop(old(self)@),
            final(self)@.wf(),
    {
        self.stack_ptr = self.stack_ptr.wrapping_add(1);
        let addr = 0x100 + self.stack_ptr as u16;
        self.mem_read(addr)
    }

    fn stack_push_u16(&mut self, data: u16)
        requires
            old(self)@.wf(),
        ensures
            final(self)@ == spec_push_u16(old(self)@, data),
            final(self)@.wf(),
    {
        let hi = (data / 256) as u8;
        let lo = (data % 256) as u8;
        self.stack_push(hi);
        self.stack_push(lo);
    }

    fn stack_pop_u16(&mut self) -> (r: u16)
        requires
            old(self)@.wf(),
        ensures
            (final(self)@, r) == spec_pop_u16(old(self)@),
            final(self)@.wf(),
    {
        let lo = self.stack_pop() as u16;
        let hi = self.stack_pop() as u16;
        hi * 256 + lo
    }

    /// The reset sequence.
    pub fn reset(&mut self)
        requires
            old(self)@.wf(),
        ensures
            final(self)@ == spec_reset(old(self)@),
            final(self)@.wf(),
    {
        self.register_a = 0;
        self.register_x = 0;
        self.register_y = 0;
        self.status = 0b0010_0100;
        self.stack_ptr = 0xfd;
        self.program_counter = self.mem_read_u16(0xfffc);
    }

    /// Copies a program into memory at `0x0600`.
    pub fn load(&mut self, program: Vec<u8>)
        requires
            old(self)@.wf(),
            program@.len() <= 0xfa00,
        ensures
            final(self)@ == spec_load_from(old(self)@, program@, 0),
            final(self)@.wf(),
    {
        let ghost c0 = old(self)@;
        let n = program.len();
        let mut i: usize = 0;
        while i < n
            invariant
                0 <= i <= n,
                n == program@.len() <= 0xfa00,
                self@.wf(),
                spec_load_from(c0, program@, 0) == spec_load_from(self@, program@, i as int),
            decreases n - i,
        {
            self.mem_write(0x600 + i as u16, program[i]);
            i = i + 1;
        }
    }

    /// Loads a program, resets, and runs it under a step budget.
    pub fn load_and_run(&mut self, program: Vec<u8>, max_steps: u64) -> (r: RunExit)
        requires
            old(self)@.wf(),
            program@.len() <= 0xfa00,
        ensures
            (final(self)@, r) == spec_run(
                spec_reset(spec_load_from(old(self)@, program@, 0)),
                max_steps as nat,
            ),
            final(self)@.wf(),
    {
        self.load(program);
        self.reset();
        self.run(max_steps)
    }

    fn is_negative(&self, target: u8) -> (r: bool)
        ensures
            r == (target & 0x80 != 0),
    {
        target & 0b1000_0000 != 0
    }

    /// Resolves an instruction's operand address at the current program
    /// counter.
    pub fn get_operand_addressing_mode(&mut self, mode: &AddressingMode) -> (addr: u16)
        requires
            old(self)@.wf(),
        ensures
            (final(self)@, addr) == spec_operand_addr(old(self)@, *mode),
            final(self)@.wf(),
    {
        let pc = self.program_counter;
        self.get_operand_addressing_mode_trace(mode, pc)
    }

    /// Resolves an instruction's operand address with the operand bytes taken
    /// at an arbitrary position, as an execution tracer needs.
    pub fn get_operand_addressing_mode_trace(&mut self, mode: &AddressingMode, pc: u16) -> (addr:
        u16)
        requires
            old(self)@.wf(),
        ensures
            (final(self)@, addr) == spec_operand_addr_at(old(self)@, *mode, pc),
            final(self)@.wf(),
    {
        match mode {
            AddressingMode::Immediate => self.program_counter,
            AddressingMode::ZeroPage => self.mem_read(pc) as u16,
            AddressingMode::ZeroPage_X => {
                let zp_addr = self.mem_read(pc);
                zp_addr.wrapping_add(self.register_x) as u16
            },
            AddressingMode::ZeroPage_Y => {
                let zp_addr = self.mem_read(pc);
                zp_addr.wrapping_add(self.register_y) as u16
            },
            AddressingMode::Absolute => self.mem_read_u16(pc),
            AddressingMode::Absolute_X => {
                let abs_addr = self.mem_read_u16(pc);
                abs_addr.wrapping_add(self.register_x as u16)
            },
            AddressingMode::Absolute_Y => {
                let abs_addr = self.mem_read_u16(pc);
                abs_addr.wrapping_add(self.register_y as u16)
            },
            AddressingMode::Indirect_X => {
                let indr_addr = self.mem_read(pc);
                let ptr = indr_addr.wrapping_add(self.register_x);
                let lo = self.mem_read(ptr as u16) as u16;
                let hi = self.mem_read(ptr.wrapping_add(1) as u16) as u16;
                hi * 256 + lo
            },
            AddressingMode::Indirect_Y => {
                let indr_addr = self.mem_read(pc);
                let lo = self.mem_read(indr_addr as u16) as u16;
                let hi = self.mem_read(indr_addr.wrapping_add(1) as u16) as u16;
                let ptr = hi * 256 + lo;
                ptr.wrapping_add(self.register_y as u16)
            },
            AddressingMode::NotSupported => {
                self.bus.fault = true;
                0
            },
        }
    }

    fn enable_flag(&mut self, flag: &Flag)
        ensures
            final(self)@ == (CpuV { status: spec_enable(old(self)@.status, *flag), ..old(self)@ }),
    {
        match flag {
            Flag::Carry => self.status = self.status | 0b0000_0001,
            Flag::Zero => self.status = self.status | 0b0000_0010,
            Flag::IRQ => self.status = self.status | 0b0000_0100,
            Flag::Dec => self.status = self.status | 0b0000_1000,
            Flag::Break => self.status = self.status | 0b0001_0000,
            Flag::Break2 => self.status = self.status | 0b0010_0000,
            Flag::Overflow => self.status = self.status | 0b0100_0000,
            Flag::Negative => self.status = self.status | 0b1000_0000,
        }
    }

    fn disable_flag(&mut self, flag: &Flag)
        ensures
            final(self)@ == (CpuV { status: spec_disable(old(self)@.status, *flag), ..old(self)@ }),
    {
        match flag {
            Flag::Carry => self.status = self.status & 0b1111_1110,
            Flag::Zero => self.status = self.status & 0b1111_1101,
            Flag::IRQ => self.status = self.status & 0b1111_1011,
            Flag::Dec => self.status = self.status & 0b1111_0111,
            Flag::Break => self.status = self.status & 0b1110_1111,
            Flag::Break2 => self.status = self.status & 0b1101_1111,
            Flag::Overflow => self.status = self.status & 0b1011_1111,
            Flag::Negative => self.status = self.status & 0b0111_1111,
        }
    }

    fn get_flag_status(&self, flag: &Flag) -> (r: bool)
        ensures
            r == spec_flag_set(self@.status, *flag),
    {
        match flag {
            Flag::Carry => self.status & 0b0000_0001 != 0,
            Flag::Zero => self.status & 0b0000_0010 != 0,
            Flag::IRQ => self.status & 0b0000_0100 != 0,
            Flag::Dec => self.status & 0b0000_1000 != 0,
            Flag::Break => self.status & 0b0001_0000 != 0,
            Flag::Break2 => self.status & 0b0010_0000 != 0,
            Flag::Overflow => self.status & 0b0100_0000 != 0,
            Flag::Negative => self.status & 0b1000_0000 != 0,
        }
    }

    fn set_zn_flags_v1(&mut self, reg: u8)
        ensures
            final(self)@ == (CpuV { status: spec_zn(old(self)@.status, reg), ..old(self)@ }),
    {
        if reg == 0 {
            self.enable_flag(&Flag::Zero);
        } else {
            self.disable_flag(&Flag::Zero);
        }
        if self.is_negative(reg) {
            self.enable_flag(&Flag::Negative);
        } else {
            self.disable_flag(&Flag::Negative);
        }
    }

    fn adc(&mut self, mode: &AddressingMode)
        requires
            old(self)@.wf(),
        ensures
            final(self)@ == spec_adc(old(self)@, *mode),
            final(self)@.wf(),
    {
        proof {
            reveal(spec_adc);
        }
        let addr = self.get_operand_addressing_mode(mode);
        let m = self.mem_read(addr);
        self.add(m);
        let a = self.register_a;
        self.set_zn_flags_v1(a);
    }

    fn add(&mut self, addend: u8)
        ensures
            final(self)@ == spec_add(old(self)@, addend),
    {
        let status_carry: u16 = if self.get_flag_status(&Flag::Carry) {
            1
        } else {
            0
        };
        let sum: u16 = self.register_a as u16 + addend as u16 + status_carry;
        if sum > 255 {
            self.enable_flag(&Flag::Carry);
        } else {
            self.disable_flag(&Flag::Carry);
        }
        let result = (sum % 256) as u8;
        if (self.register_a ^ result) & (addend ^ result) & 0b1000_0000 == 0 {
            self.disable_flag(&Flag::Overflow);
        } else {
            self.enable_flag(&Flag::Overflow);
        }
        self.register_a = result;
    }

    fn and(&mut self, mode: &AddressingMode)
        requires
            old(self)@.wf(),
        ensures
            final(self)@ == spec_and(old(self)@, *mode),
            final(self)@.wf(),
    {
        proof {
            reveal(spec_and);
        }
        let addr = self.get_operand_addressing_mode(mode);
        let m = self.mem_read(addr);
        self.register_a = self.register_a & m;
        let a = self.register_a;
        self.set_zn_flags_v1(a);
    }

    fn asl_accumulator(&mut self)
        ensures
            final(self)@ == spec_asl_accumulator(old(self)@),
    {
        if self.register_a > 0b0111_1111 {
            self.enable_flag(&Flag::Carry);
        } else {
            self.disable_flag(&Flag::Carry);
        }
        self.register_a = self.register_a << 1;
        let a = self.register_a;
        self.set_zn_flags_v1(a);
    }

    fn asl(&mut self, mode: &AddressingMode)
        requires
            old(self)@.wf(),
        ensures
            final(self)@ == spec_asl(old(self)@, *mode),
            final(self)@.wf(),
    {
        proof {
            reveal(spec_asl);
        }
        let addr = self.get_operand_addressing_mode(mode);
        let mut operand = self.mem_read(addr);
        if operand > 0b0111_1111 {
            self.enable_flag(&Flag::Carry);
        } else {
            self.disable_flag(&Flag::Carry);
        }
        operand = operand << 1;
        self.mem_write(addr, operand);
        self.set_zn_flags_v1(operand);
    }

    fn bit(&mut self, mode: &AddressingMode)
        requires
            old(self)@.wf(),
        ensures
            final(self)@ == spec_bit(old(self)@, *mode),
            final(self)@.wf(),
    {
        proof {
            reveal(spec_bit);
        }
        let addr = self.get_operand_addressing_mode(mode);
        let data = self.mem_read(addr);
        let operand = self.register_a & data;
        if operand == 0 {
            self.enable_flag(&Flag::Zero);
        } else {
            self.disable_flag(&Flag::Zero);
        }
        if data & 0b1000_0000 != 0 {
            self.enable_flag(&Flag::Negative);
        } else {
            self.disable_flag(&Flag::Negative);
        }
        if data & 0b0100_0000 != 0 {
            self.enable_flag(&Flag::Overflow);
        } else {
            self.disable_flag(&Flag::Overflow);
        }
    }

    fn branch_set(&mut self, flag: &Flag)
        requires
            old(self)@.wf(),
        ensures
            final(self)@ == spec_branch(old(self)@, *flag, true),
            final(self)@.wf(),
    {
        if self.get_flag_status(flag) {
            let pc = self.program_counter;
            let displacement = self.mem_read(pc);
            let ext: u16 = if displacement < 0x80 {
                displacement as u16
            } else {
                displacement as u16 + 0xff00
            };
            self.program_counter = pc.wrapping_add(1).wrapping_add(ext);
        }
    }

    fn branch_clear(&mut self, flag: &Flag)
        requires
            old(self)@.wf(),
        ensures
            final(self)@ == spec_branch(old(self)@, *flag, false),
            final(self)@.wf(),
    {
        if !self.get_flag_status(flag) {
            let pc = self.program_counter;
            let displacement = self.mem_read(pc);
            let ext: u16 = if displacement < 0x80 {
                displacement as u16
            } else {
                displacement as u16 + 0xff00
            };
            self.program_counter = pc.wrapping_add(1).wrapping_add(ext);
        }
    }

    fn cmp(&mut self, mode: &AddressingMode)
        requires
            old(self)@.wf(),
        ensures
            final(self)@ == spec_compare(old(self)@, *mode, old(self)@.register_a),
            final(self)@.wf(),
    {
        proof {
            reveal(spec_compare);
        }
        let addr = self.get_operand_addressing_mode(mode);
        let operand = self.mem_read(addr);
        if self.register_a >= operand {
            self.enable_flag(&Flag::Carry);
        } else {
            self.disable_flag(&Flag::Carry);
        }
        let diff = self.register_a.wrapping_sub(operand);
        self.set_zn_flags_v1(diff);
    }

    fn cpx(&mut self, mode: &AddressingMode)
        requires
            old(self)@.wf(),
        ensures
            final(self)@ == spec_compare(old(self)@, *mode, old(self)@.register_x),
            final(self)@.wf(),
    {
        proof {
            reveal(spec_compare);
        }
        let addr = self.get_operand_addressing_mode(mode);
        let operand = self.mem_read(addr);
        if self.register_x >= operand {
            self.enable_flag(&Flag::Carry);
        } else {
            self.disable_flag(&Flag::Carry);
        }
        let diff = self.register_x.wrapping_sub(operand);
        self.set_zn_flags_v1(diff);
    }

    fn cpy(&mut self, mode: &AddressingMode)
        requires
            old(self)@.wf(),
        ensures
            final(self)@ == spec_compare(old(self)@, *mode, old(self)@.register_y),
            final(self)@.wf(),
    {
        proof {
            reveal(spec_compare);
        }
        let addr = self.get_operand_addressing_mode(mode);
        let operand = self.mem_read(addr);
        if self.register_y >= operand {
            self.enable_flag(&Flag::Carry);
        } else {
            self.disable_flag(&Flag::Carry);
        }
        let diff = self.register_y.wrapping_sub(operand);
        self.set_zn_flags_v1(diff);
    }

    fn dec(&mut self, mode: &AddressingMode)
        requires
            old(self)@.wf(),
        ensures
            final(self)@ == spec_dec(old(self)@, *mode),
            final(self)@.wf(),
    {
        proof {
            reveal(spec_dec);
        }
        let addr = self.get_operand_addressing_mode(mode);
        let mut operand = self.mem_read(addr);
        operand = operand.wrapping_sub(1);
        self.mem_write(addr, operand);
        self.set_zn_flags_v1(operand);
    }

    fn dex(&mut self)
        ensures
            final(self)@ == (CpuV {
                register_x: old(self)@.register_x.wrapping_sub(1),
                status: spec_zn(old(self)@.status, old(self)@.register_x.wrapping_sub(1)),
                ..old(self)@
            }),
    {
        self.register_x = self.register_x.wrapping_sub(1);
        let x = self.register_x;
        self.set_zn_flags_v1(x);
    }

    fn dey(&mut self)
        ensures
            final(self)@ == (CpuV {
                register_y: old(self)@.register_y.wrapping_sub(1),
                status: spec_zn(old(self)@.status, old(self)@.register_y.wrapping_sub(1)),
                ..old(self)@
            }),
    {
        self.register_y = self.register_y.wrapping_sub(1);
        let y = self.register_y;
        self.set_zn_flags_v1(y);
    }

    fn eor(&mut self, mode: &AddressingMode)
        requires
            old(self)@.wf(),
        ensures
            final(self)@ == spec_eor(old(self)@, *mode),
            final(self)@.wf(),
    {
        proof {
            reveal(spec_eor);
        }
        let addr = self.get_operand_addressing_mode(mode);
        let m = self.mem_read(addr);
        self.register_a = self.register_a ^ m;
        let a = self.register_a;
        self.set_zn_flags_v1(a);
    }

    fn inc(&mut self, mode: &AddressingMode)
        requires
            old(self)@.wf(),
        ensures
            final(self)@ == spec_inc(old(self)@, *mode),
            final(self)@.wf(),
    {
        proof {
            reveal(spec_inc);
        }
        let addr = self.get_operand_addressing_mode(mode);
        let mut operand = self.mem_read(addr);
        operand = operand.wrapping_add(1);
        self.mem_write(addr, operand);
        self.set_zn_flags_v1(operand);
    }

    fn inx(&mut self)
        ensures
            final(self)@ == (CpuV {
                register_x: old(self)@.register_x.wrapping_add(1),
                status: spec_zn(old(self)@.status, old(self)@.register_x.wrapping_add(1)),
                ..old(self)@
            }),
    {
        self.register_x = self.register_x.wrapping_add(1);
        let x = self.register_x;
        self.set_zn_flags_v1(x);
    }

    fn iny(&mut self)
        ensures
            final(self)@ == (CpuV {
                register_y: old(self)@.register_y.wrapping_add(1),
                status: spec_zn(old(self)@.status, old(self)@.register_y.wrapping_add(1)),
                ..old(self)@
            }),
    {
        self.register_y = self.register_y.wrapping_add(1);
        let y = self.register_y;
        self.set_zn_flags_v1(y);
    }

    fn lda(&mut self, mode: &AddressingMode)
        requires
            old(self)@.wf(),
        ensures
            final(self)@ == spec_lda(old(self)@, *mode),
            final(self)@.wf(),
    {
        proof {
            reveal(spec_lda);
        }
        let addr = self.get_operand_addressing_mode(mode);
        let m = self.mem_read(addr);
        self.register_a = m;
        self.set_zn_flags_v1(m);
    }

    fn ldx(&mut self, mode: &AddressingMode)
        requires
            old(self)@.wf(),
        ensures
            final(self)@ == spec_ldx(old(self)@, *mode),
            final(self)@.wf(),
    {
        proof {
            reveal(spec_ldx);
        }
        let addr = self.get_operand_addressing_mode(mode);
        let m = self.mem_read(addr);
        self.register_x = m;
        self.set_zn_flags_v1(m);
    }

    fn ldy(&mut self, mode: &AddressingMode)
        requires
            old(self)@.wf(),
        ensures
            final(self)@ == spec_ldy(old(self)@, *mode),
            final(self)@.wf(),
    {
        proof {
            reveal(spec_ldy);
        }
        let addr = self.get_operand_addressing_mode(mode);
        let m = self.mem_read(addr);
        self.register_y = m;
        self.set_zn_flags_v1(m);
    }

    fn lsr_accumulator(&mut self)
        ensures
            final(self)@ == spec_lsr_accumulator(old(self)@),
    {
        if self.register_a & 0b0000_0001 == 1 {
            self.enable_flag(&Flag::Carry);
        } else {
            self.disable_flag(&Flag::Carry);
        }
        self.register_a = self.register_a >> 1;
        let a = self.register_a;
        self.set_zn_flags_v1(a);
    }

    fn lsr(&mut self, mode: &AddressingMode)
        requires
            old(self)@.wf(),
        ensures
            final(self)@ == spec_lsr(old(self)@, *mode),
            final(self)@.wf(),
    {
        proof {
            reveal(spec_lsr);
        }
        let addr = self.get_operand_addressing_mode(mode);
        let mut operand = self.mem_read(addr);
        if operand & 0b0000_0001 == 1 {
            self.enable_flag(&Flag::Carry);
        } else {
            self.disable_flag(&Flag::Carry);
        }
        operand = operand >> 1;
        self.mem_write(addr, operand);
        self.set_zn_flags_v1(operand);
    }

    fn ora(&mut self, mode: &AddressingMode)
        requires
            old(self)@.wf(),
        ensures
            final(self)@ == spec_ora(old(self)@, *mode),
            final(self)@.wf(),
    {
        proof {
            reveal(spec_ora);
        }
        let addr = self.get_operand_addressing_mode(mode);
        let m = self.mem_read(addr);
        self.register_a = self.register_a | m;
        let a = self.register_a;
        self.set_zn_flags_v1(a);
    }

    fn rol_accumulator(&mut self)
        ensures
            final(self)@ == spec_rol_accumulator(old(self)@),
    {
        let carry_isolate = self.status & 0b0000_0001;
        if self.register_a > 0b0111_1111 {
            self.enable_flag(&Flag::Carry);
        } else {
            self.disable_flag(&Flag::Carry);
        }
        self.register_a = self.register_a << 1;
        self.register_a = if carry_isolate == 1 {
            self.register_a | carry_isolate
        } else {
            self.register_a & 0b1111_1110
        };
        let a = self.register_a;
        self.set_zn_flags_v1(a);
    }

    fn rol(&mut self, mode: &AddressingMode)
        requires
            old(self)@.wf(),
        ensures
            final(self)@ == spec_rol(old(self)@, *mode),
            final(self)@.wf(),
    {
        proof {
            reveal(spec_rol);
        }
        let addr = self.get_operand_addressing_mode(mode);
        let mut operand = self.mem_read(addr);
        let carry_isolate = self.status & 0b0000_0001;
        if operand > 0b0111_1111 {
            self.enable_flag(&Flag::Carry);
        } else {
            self.disable_flag(&Flag::Carry);
        }
        operand = operand << 1;
        operand = if carry_isolate == 1 {
            operand | carry_isolate
        } else {
            operand
        };
        self.mem_write(addr, operand);
        self.set_zn_flags_v1(operand);
    }

    fn ror_accumulator(&mut self)
        ensures
            final(self)@ == spec_ror_accumulator(old(self)@),
    {
        let carry_isolate = self.status & 0b0000_0001;
        if self.register_a & 0b0000_0001 == 1 {
            self.enable_flag(&Flag::Carry);
        } else {
            self.disable_flag(&Flag::Carry);
        }
        self.register_a = self.register_a >> 1;
        self.register_a = if carry_isolate != 0 {
            self.register_a | 0b1000_0000
        } else {
            self.register_a
        };
        let a = self.register_a;
        self.set_zn_flags_v1(a);
    }

    fn ror(&mut self, mode: &AddressingMode)
        requires
            old(self)@.wf(),
        ensures
            final(self)@ == spec_ror(old(self)@, *mode),
            final(self)@.wf(),
    {
        proof {
            reveal(spec_ror);
        }
        let addr = self.get_operand_addressing_mode(mode);
        let mut operand = self.mem_read(addr);
        let carry_isolate = self.status & 0b0000_0001;
        if operand & 0b0000_0001 == 1 {
            self.enable_flag(&Flag::Carry);
        } else {
            self.disable_flag(&Flag::Carry);
        }
        operand = operand >> 1;
        operand = if carry_isolate != 0 {
            operand | 0b1000_0000
        } else {
            operand
        };
        self.mem_write(addr, operand);
        self.set_zn_flags_v1(operand);
    }

    fn sbc(&mut self, mode: &AddressingMode)
        requires
            old(self)@.wf(),
        ensures
            final(self)@ == spec_sbc(old(self)@, *mode),
            final(self)@.wf(),
    {
        proof {
            reveal(spec_sbc);
        }
        let addr = self.get_operand_addressing_mode(mode);
        let operand = self.mem_read(addr);
        self.add(255 - operand);
        let a = self.register_a;
        self.set_zn_flags_v1(a);
    }

    fn sta(&mut self, mode: &AddressingMode)
        requires
            old(self)@.wf(),
        ensures
            final(self)@ == spec_sta(old(self)@, *mode),
            final(self)@.wf(),
    {
        proof {
            reveal(spec_sta);
        }
        let addr = self.get_operand_addressing_mode(mode);
        let a = self.register_a;
        self.mem_write(addr, a);
    }

    fn stx(&mut self, mode: &AddressingMode)
        requires
            old(self)@.wf(),
        ensures
            final(self)@ == spec_stx(old(self)@, *mode),
            final(self)@.wf(),
    {
        proof {
            reveal(spec_stx);
        }
        let addr = self.get_operand_addressing_mode(mode);
        let x = self.register_x;
        self.mem_write(addr, x);
    }

    fn sty(&mut self, mode: &AddressingMode)
        requires
            old(self)@.wf(),
        ensures
            final(self)@ == spec_sty(old(self)@, *mode),
            final(self)@.wf(),
    {
        proof {
            reveal(spec_sty);
        }
        let addr = self.get_operand_addressing_mode(mode);
        let y = self.register_y;
        self.mem_write(addr, y);
    }

    fn sax(&mut self, mode: &AddressingMode)
        requires
            old(self)@.wf(),
        ensures
            final(self)@ == spec_sax(old(self)@, *mode),
            final(self)@.wf(),
    {
        proof {
            reveal(spec_sax);
        }
        let addr = self.get_operand_addressing_mode(mode);
        let result = self.register_x & self.register_a;
        self.mem_write(addr, result);
    }

    fn tax(&mut self)
        ensures
            final(self)@ == spec_tax(old(self)@),
    {
        self.register_x = self.register_a;
        let x = self.register_x;
        self.set_zn_flags_v1(x);
    }

    fn interrupt_nmi(&mut self)
        requires
            old(self)@.wf(),
        ensures
            final(self)@ == spec_interrupt_nmi(old(self)@),
            final(self)@.wf(),
    {
        let pc = self.program_counter;
        self.stack_push_u16(pc);
        let mut flag = self.status;
        flag = flag & 0b1110_1111;
        flag = flag | 0b0010_0000;
        self.stack_push(flag);
        self.enable_flag(&Flag::IRQ);
        self.program_counter = self.mem_read_u16(0xfffa);
    }

    /// Executes an instruction whose byte falls in the below `0x40` quadrant.
    #[verifier::rlimit(100)]
    #[verifier::spinoff_prover]
    fn execute_q0(&mut self, op: u8, mode: AddressingMode)
        requires
            old(self)@.wf(),
        ensures
            final(self)@ == spec_execute_q0(old(self)@, op, mode),
            final(self)@.wf(),
    {
        proof {
            reveal(spec_execute_q0);
        }
        match op {
            0x29 | 0x25 | 0x35 | 0x2d | 0x3d | 0x39 | 0x21 | 0x31 => self.and(&mode),
            0x0a => self.asl_accumulator(),
            0x06 | 0x16 | 0x0e | 0x1e => self.asl(&mode),
            0x24 | 0x2c => self.bit(&mode),
            0x30 => self.branch_set(&Flag::Negative),
            0x10 => self.branch_clear(&Flag::Negative),
            0x18 => self.disable_flag(&Flag::Carry),
            0x20 => {
                let addr = self.get_operand_addressing_mode(&AddressingMode::Absolute);
                let ret = self.program_counter.wrapping_add(1);
                self.stack_push_u16(ret);
                self.program_counter = addr;
            },
            0x09 | 0x05 | 0x15 | 0x0d | 0x1d | 0x19 | 0x01 | 0x11 => self.ora(&mode),
            0x08 => {
                let flag = self.status | 0b0011_0000;
                self.stack_push(flag);
            },
            0x28 => {
                let v = self.stack_pop();
                self.status = v;
                self.disable_flag(&Flag::Break);
                self.enable_flag(&Flag::Break2);
            },
            0x2a => self.rol_accumulator(),
            0x26 | 0x36 | 0x2e | 0x3e => self.rol(&mode),
            0x38 => self.enable_flag(&Flag::Carry),
            0x1a | 0x3a => {},
            0x0b | 0x2b => {
                let pc = self.program_counter;
                let m = self.mem_read(pc);
                let result = self.register_a & m;
                if self.is_negative(result) {
                    self.enable_flag(&Flag::Carry);
                } else {
                    self.disable_flag(&Flag::Carry);
                }
                self.register_a = result;
                self.set_zn_flags_v1(result);
            },
            0x0c | 0x1c | 0x3c | 0x04 | 0x14 | 0x34 => {
                let addr = self.get_operand_addressing_mode(&mode);
                let _ignored = self.mem_read(addr);
            },
            _ => {},
        }
    }

    /// Executes an instruction whose byte falls in the `0x40` to `0x7f` quadrant.
    #[verifier::rlimit(100)]
    #[verifier::spinoff_prover]
    fn execute_q1(&mut self, op: u8, mode: AddressingMode)
        requires
            old(self)@.wf(),
        ensures
            final(self)@ == spec_execute_q1(old(self)@, op, mode),
            final(self)@.wf(),
    {
        proof {
            reveal(spec_execute_q1);
        }
        match op {
            0x69 | 0x65 | 0x75 | 0x6d | 0x7d | 0x79 | 0x61 | 0x71 => self.adc(&mode),
            0x50 => self.branch_clear(&Flag::Overflow),
            0x70 => self.branch_set(&Flag::Overflow),
            0x58 => self.disable_flag(&Flag::IRQ),
            0x49 | 0x45 | 0x55 | 0x4d | 0x5d | 0x59 | 0x41 | 0x51 => self.eor(&mode),
            0x4c => {
                let addr = self.get_operand_addressing_mode(&AddressingMode::Absolute);
                self.program_counter = addr;
            },
            0x6c => {
                let pc = self.program_counter;
                let addr = self.mem_read_u16(pc);
                let indirect_addr = if addr % 256 == 255 {
                    let lo = self.mem_read(addr) as u16;
                    let hi = self.mem_read(addr - 255) as u16;
                    hi * 256 + lo
                } else {
                    self.mem_read_u16(addr)
                };
                self.program_counter = indirect_addr;
            },
            0x60 => {
                let target = self.stack_pop_u16();
                self.program_counter = target.wrapping_add(1);
            },
            0x4a => self.lsr_accumulator(),
            0x46 | 0x56 | 0x4e | 0x5e => self.lsr(&mode),
            0x48 => {
                let a = self.register_a;
                self.stack_push(a);
            },
            0x68 => {
                let v = self.stack_pop();
                self.register_a = v;
                self.set_zn_flags_v1(v);
            },
            0x6a => self.ror_accumulator(),
            0x66 | 0x76 | 0x6e | 0x7e => self.ror(&mode),
            0x40 => {
                let v = self.stack_pop();
                self.status = v;
                self.disable_flag(&Flag::Break);
                self.enable_flag(&Flag::Break2);
                let target = self.stack_pop_u16();
                self.program_counter = target;
            },
            0x78 => self.enable_flag(&Flag::IRQ),
            0x5a | 0x7a => {},
            0x4b => {
                let pc = self.program_counter;
                let m = self.mem_read(pc);
                self.register_a = self.register_a & m;
                self.lsr_accumulator();
            },
            0x6b => {
                let pc = self.program_counter;
                let m = self.mem_read(pc);
                self.register_a = self.register_a & m;
                self.ror_accumulator();
                let b5 = self.register_a & 0b0010_0000 != 0;
                let b6 = self.register_a & 0b0100_0000 != 0;
                if b6 {
                    self.enable_flag(&Flag::Carry);
                } else {
                    self.disable_flag(&Flag::Carry);
                }
                if b6 != b5 {
                    self.enable_flag(&Flag::Overflow);
                } else {
                    self.disable_flag(&Flag::Overflow);
                }
            },
            0x5c | 0x7c | 0x44 | 0x64 | 0x54 | 0x74 => {
                let addr = self.get_operand_addressing_mode(&mode);
                let _ignored = self.mem_read(addr);
            },
            _ => {},
        }
    }

    /// Executes an instruction whose byte falls in the `0x80` to `0xbf` quadrant.
    #[verifier::rlimit(100)]
    #[verifier::spinoff_prover]
    fn execute_q2(&mut self, op: u8, mode: AddressingMode)
        requires
            old(self)@.wf(),
        ensures
            final(self)@ == spec_execute_q2(old(self)@, op, mode),
            final(self)@.wf(),
    {
        proof {
            reveal(spec_execute_q2);
        }
        match op {
            0x90 => self.branch_clear(&Flag::Carry),
            0xb0 => self.branch_set(&Flag::Carry),
            0xb8 => self.disable_flag(&Flag::Overflow),
            0x88 => self.dey(),
            0xa9 | 0xa5 | 0xb5 | 0xad | 0xbd | 0xb9 | 0xa1 | 0xb1 => self.lda(&mode),
            0xa2 | 0xa6 | 0xb6 | 0xae | 0xbe => self.ldx(&mode),
            0xa0 | 0xa4 | 0xb4 | 0xac | 0xbc => self.ldy(&mode),
            0x85 | 0x95 | 0x8d | 0x9d | 0x99 | 0x81 | 0x91 => self.sta(&mode),
            0x86 | 0x96 | 0x8e => self.stx(&mode),
            0x84 | 0x94 | 0x8c => self.sty(&mode),
            0xaa => self.tax(),
            0xa8 => {
                self.register_y = self.register_a;
                let y = self.register_y;
                self.set_zn_flags_v1(y);
            },
            0xba => {
                self.register_x = self.stack_ptr;
                let x = self.register_x;
                self.set_zn_flags_v1(x);
            },
            0x8a => {
                self.register_a = self.register_x;
                let a = self.register_a;
                self.set_zn_flags_v1(a);
            },
            0x9a => {
                self.stack_ptr = self.register_x;
            },
            0x98 => {
                self.register_a = self.register_y;
                let a = self.register_a;
                self.set_zn_flags_v1(a);
            },
            0xa3 | 0xa7 | 0xaf | 0xb3 | 0xb7 | 0xbf => {
                self.lda(&mode);
                self.tax();
            },
            0xab => {
                let pc = self.program_counter;
                let m = self.mem_read(pc);
                self.register_a = self.register_a & m;
                let a = self.register_a;
                self.set_zn_flags_v1(a);
                self.tax();
            },
            0x87 | 0x97 | 0x83 | 0x8f => self.sax(&mode),
            0x9f | 0x93 => {},
            0x80 | 0x82 | 0x89 => {
                let pc = self.program_counter;
                let _ignored = self.mem_read(pc);
            },
            _ => {},
        }
    }

    /// Executes an instruction whose byte falls in the `0xc0` and up quadrant.
    #[verifier::rlimit(100)]
    #[verifier::spinoff_prover]
    fn execute_q3(&mut self, op: u8, mode: AddressingMode)
        requires
            old(self)@.wf(),
        ensures
            final(self)@ == spec_execute_q3(old(self)@, op, mode),
            final(self)@.wf(),
    {
        proof {
            reveal(spec_execute_q3);
        }
        match op {
            0xf0 => self.branch_set(&Flag::Zero),
            0xd0 => self.branch_clear(&Flag::Zero),
            0xd8 => self.disable_flag(&Flag::Dec),
            0xc9 | 0xc5 | 0xd5 | 0xcd | 0xdd | 0xd9 | 0xc1 | 0xd1 => self.cmp(&mode),
            0xe0 | 0xe4 | 0xec => self.cpx(&mode),
            0xc0 | 0xc4 | 0xcc => self.cpy(&mode),
            0xc6 | 0xd6 | 0xce | 0xde => self.dec(&mode),
            0xca => self.dex(),
            0xe6 | 0xf6 | 0xee | 0xfe => self.inc(&mode),
            0xe8 => self.inx(),
            0xc8 => self.iny(),
            0xe9 | 0xe5 | 0xf5 | 0xed | 0xfd | 0xf9 | 0xe1 | 0xf1 => self.sbc(&mode),
            0xf8 => self.enable_flag(&Flag::Dec),
            0xea | 0xda | 0xfa => {},
            0xcb => {
                let pc = self.program_counter;
                let operand = self.mem_read(pc);
                let andresult = self.register_a & self.register_x;
                let result = andresult.wrapping_sub(operand);
                if operand <= andresult {
                    self.enable_flag(&Flag::Carry);
                }
                self.register_x = result;
                self.set_zn_flags_v1(result);
            },
            0xc3 | 0xc7 | 0xcf | 0xd3 | 0xd7 | 0xdb | 0xdf => {
                self.dec(&mode);
                self.cmp(&mode);
            },
            0xdc | 0xfc | 0xd4 | 0xf4 => {
                let addr = self.get_operand_addressing_mode(&mode);
                let _ignored = self.mem_read(addr);
            },
            0xe3 | 0xe7 | 0xef | 0xf3 | 0xf7 | 0xfb | 0xff => {
                self.inc(&mode);
                self.sbc(&mode);
            },
            0xeb => {
                let pc = self.program_counter;
                let operand = self.mem_read(pc);
                self.add(255 - operand);
                let a = self.register_a;
                self.set_zn_flags_v1(a);
            },
            0xc2 | 0xe2 => {
                let pc = self.program_counter;
                let _ignored = self.mem_read(pc);
            },
            _ => {},
        }
    }

    /// Executes one already-fetched instruction byte, with its table mode.
    fn execute(&mut self, op: u8, mode: AddressingMode)
        requires
            old(self)@.wf(),
        ensures
            final(self)@ == spec_execute(old(self)@, op, mode),
            final(self)@.wf(),
    {
        if op < 0x40 {
            self.execute_q0(op, mode);
        } else if op < 0x80 {
            self.execute_q1(op, mode);
        } else if op < 0xc0 {
            self.execute_q2(op, mode);
        } else {
            self.execute_q3(op, mode);
        }
    }

    /// One whole interpreter step.
    #[verifier::rlimit(100)]
    #[verifier::spinoff_prover]
    pub fn step(&mut self) -> (e: StepExit)
        requires
            old(self)@.wf(),
        ensures
            (final(self)@, e) == spec_step(old(self)@),
            final(self)@.wf(),
    {
        proof {
            reveal(spec_step);
        }
        if self.bus.faulted() {
            return StepExit::Fault;
        }
        let pending = self.bus.poll_nmi();
        if pending.is_some() {
            self.interrupt_nmi();
        }
        let pc = self.program_counter;
        let op = self.mem_read(pc);
        match opcode_lookup(op) {
            Option::None => StepExit::Fault,
            Option::Some(d) => {
                self.program_counter = self.program_counter.wrapping_add(1);
                if op == 0 {
                    return StepExit::Halt;
                }
                let pccopy = self.program_counter;
                self.execute(op, d.mode);
                if self.bus.faulted() {
                    return StepExit::Fault;
                }
                if pccopy == self.program_counter {
                    self.program_counter = self.program_counter.wrapping_add((d.len - 1) as u16);
                }
                proof {
                    lemma_opcode_bounds(op);
                }
                let _frame = self.bus.tick(d.cycles);
                StepExit::Running
            },
        }
    }

    /// Runs the interpreter under a step budget, stopping on the break
    /// opcode or a fault.
    pub fn run(&mut self, max_steps: u64) -> (r: RunExit)
        requires
            old(self)@.wf(),
        ensures
            (final(self)@, r) == spec_run(old(self)@, max_steps as nat),
            final(self)@.wf(),
    {
        let ghost c0 = old(self)@;
        let mut fuel = max_steps;
        while fuel > 0
            invariant
                self@.wf(),
                c0 == old(self)@,
                spec_run(c0, max_steps as nat) == spec_run(self@, fuel as nat),
            decreases fuel,
        {
            let ghost pre = self@;
            let ghost fuel0 = fuel as nat;
            let e = self.step();
            proof {
                assert((self@, e) == spec_step(pre));
                assert(spec_run(pre, fuel0) == (match e {
                    StepExit::Running => spec_run(self@, (fuel0 - 1) as nat),
                    StepExit::Halt => (self@, RunExit::Halted),
                    StepExit::Fault => (self@, RunExit::Fault),
                }));
            }
            match e {
                StepExit::Running => {},
                StepExit::Halt => {
                    return RunExit::Halted;
                },
                StepExit::Fault => {
                    return RunExit::Fault;
                },
            }
            fuel = fuel - 1;
        }
        RunExit::StepLimit
    }
}

/// After reset the stack pointer reads `0xfd`, the status byte reads
/// `0b0010_0100`, and the program counter holds the little-endian word at
/// `0xfffc`.
pub proof fn lemma_reset(c: CpuV)
    ensures
        spec_reset(c).stack_ptr == 0xfd,
        spec_reset(c).status == 0b0010_0100,
        spec_reset(c).register_a == 0 && spec_reset(c).register_x == 0 && spec_reset(c).register_y
            == 0,
        spec_reset(c).program_counter == spec_bus_read16(c.bus, 0xfffc).1,
{
}

/// A pushed word pops back unchanged, with the stack pointer back where it
/// started.
pub proof fn lemma_stack_round_trip(c: CpuV, v: u16)
    requires
        c.wf(),
    ensures
        spec_pop_u16(spec_push_u16(c, v)).1 == v,
        spec_pop_u16(spec_push_u16(c, v)).0.stack_ptr == c.stack_ptr,
{
    reveal(crate::bus::spec_bus_read);
    reveal(crate::bus::spec_bus_write);
    let c1 = spec_push_u16(c, v);
    assert(spec_pop_u16(c1).1 == (v / 256) * 256 + (v % 256));
}

/// The adder's carry output is exactly the ninth sum bit, its overflow
/// output is exactly the signed-overflow formula, and the accumulator takes
/// the sum modulo 256 — stated over the full add-with-carry instruction
/// pipeline, zero/negative refresh included. The adder alone leaves the zero
/// and negative flags untouched; the refresh step sets them.
pub proof fn lemma_add_flags(c: CpuV, m: u8)
    ensures
        ({
            let cin: int = if spec_flag_set(c.status, Flag::Carry) {
                1
            } else {
                0
            };
            let sum = c.register_a + m + cin;
            let result = (sum % 256) as u8;
            let c2 = CpuV {
                status: spec_zn(spec_add(c, m).status, spec_add(c, m).register_a),
                ..spec_add(c, m)
            };
            &&& c2.register_a == result
            &&& spec_flag_set(c2.status, Flag::Carry) == (sum / 256 == 1)
            &&& spec_flag_set(c2.status, Flag::Overflow) == ((c.register_a ^ result) & (m ^ result)
                & 0x80 != 0)
            &&& spec_flag_set(c2.status, Flag::Zero) == (result == 0)
            &&& spec_flag_set(c2.status, Flag::Negative) == (result & 0x80 != 0)
        }),
        spec_flag_set(spec_add(c, m).status, Flag::Zero) == spec_flag_set(c.status, Flag::Zero),
        spec_flag_set(spec_add(c, m).status, Flag::Negative) == spec_flag_set(
            c.status,
            Flag::Negative,
        ),
{
    let p = c.status;
    let cin: int = if spec_flag_set(c.status, Flag::Carry) {
        1
    } else {
        0
    };
    let sum = c.register_a + m + cin;
    let r = (sum % 256) as u8;
    assert(0 <= sum < 512);
    let p1 = if sum > 255 {
        (p | 1) as u8
    } else {
        (p & 0xfe) as u8
    };
    let p2 = if (c.register_a ^ r) & (m ^ r) & 0x80 == 0 {
        (p1 & 0xbf) as u8
    } else {
        (p1 | 0x40) as u8
    };
    assert((p | 1) & 1 != 0 && (p & 0xfe) & 1 == 0 && (p1 | 0x40) & 1 == p1 & 1 && (p1 & 0xbf) & 1
        == p1 & 1 && (p1 | 0x40) & 0x40 != 0 && (p1 & 0xbf) & 0x40 == 0 && (p | 1) & 2 == p & 2
        && (p & 0xfe) & 2 == p & 2 && (p1 | 0x40) & 2 == p1 & 2 && (p1 & 0xbf) & 2 == p1 & 2 && (p
        | 1) & 0x80 == p & 0x80 && (p & 0xfe) & 0x80 == p & 0x80 && (p1 | 0x40) & 0x80 == p1
        & 0x80 && (p1 & 0xbf) & 0x80 == p1 & 0x80) by (bit_vector);
    let z1 = if r == 0 {
        (p2 | 2) as u8
    } else {
        (p2 & 0xfd) as u8
    };
    let z2 = if r & 0x80 != 0 {
        (z1 | 0x80) as u8
    } else {
        (z1 & 0x7f) as u8
    };
    assert((p2 | 2) & 1 == p2 & 1 && (p2 & 0xfd) & 1 == p2 & 1 && (p2 | 2) & 0x40 == p2 & 0x40 && (
    p2 & 0xfd) & 0x40 == p2 & 0x40 && (z1 | 0x80) & 1 == z1 & 1 && (z1 & 0x7f) & 1 == z1 & 1 && (z1
        | 0x80) & 0x40 == z1 & 0x40 && (z1 & 0x7f) & 0x40 == z1 & 0x40 && (z1 | 0x80) & 0x80 != 0
        && (z1 & 0x7f) & 0x80 == 0 && (p2 | 2) & 2 != 0 && (p2 & 0xfd) & 2 == 0 && (z1 | 0x80) & 2
        == z1 & 2 && (z1 & 0x7f) & 2 == z1 & 2) by (bit_vector);
}

/// The subtract-with-borrow pipeline: the operand's bitwise complement goes
/// through the adder, so the carry out is clear exactly when the nine-bit
/// sum `A + !M + C` stays under 256 (a borrow), and the signed-overflow
/// formula applies with the complemented operand.
pub proof fn lemma_sbc_flags(c: CpuV, m: u8)
    ensures
        ({
            let cin: int = if spec_flag_set(c.status, Flag::Carry) {
                1
            } else {
                0
            };
            let comp = (255 - m) as u8;
            let sum = c.register_a + comp + cin;
            let result = (sum % 256) as u8;
            let c2 = CpuV {
                status: spec_zn(spec_add(c, comp).status, spec_add(c, comp).register_a),
                ..spec_add(c, comp)
            };
            &&& comp == !m
            &&& c2.register_a == result
            &&& spec_flag_set(c2.status, Flag::Carry) == !(sum / 256 == 0)
            &&& spec_flag_set(c2.status, Flag::Overflow) == ((c.register_a ^ result) & (comp
                ^ result) & 0x80 != 0)
        }),
{
    assert((255 - m) as u8 == !m) by (bit_vector);
    lemma_add_flags(c, (255 - m) as u8);
}

/// A branch whose predicate fails leaves the program counter on the
/// displacement byte, so the dispatcher's length adjustment moves it exactly
/// one past; a branch whose predicate holds moves it one past plus the
/// sign-extended displacement.
pub proof fn lemma_branch(c: CpuV, flag: Flag, want: bool)
    ensures
        spec_flag_set(c.status, flag) != want ==> spec_branch(c, flag, want) == c,
        spec_flag_set(c.status, flag) == want ==> spec_branch(c, flag, want).program_counter
            == c.program_counter.wrapping_add(1).wrapping_add(
            spec_sign_extend(cpu_read(c, c.program_counter).1),
        ),
{
}

} // verus!
