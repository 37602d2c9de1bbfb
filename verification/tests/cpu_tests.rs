use nes_core::bus::Bus;
use nes_core::cpu::CPU;
use nes_core::cpu::RunExit;
use nes_core::rom::Mirroring;
use nes_core::rom::Rom;

fn test_rom() -> Rom {
    Rom {
        prg_rom: vec![0; 0x8000],
        chr_rom: vec![0; 0x2000],
        screen_mirroring: Mirroring::Vertical,
    }
}

fn cpu_with_program(program: Vec<u8>) -> CPU {
    let mut cpu = CPU::new(Bus::new(test_rom()));
    cpu.load(program);
    cpu.reset();
    cpu.program_counter = 0x0600;
    cpu
}

fn carry(cpu: &CPU) -> bool {
    cpu.status & 0x01 != 0
}

fn zero(cpu: &CPU) -> bool {
    cpu.status & 0x02 != 0
}

fn overflow(cpu: &CPU) -> bool {
    cpu.status & 0x40 != 0
}

fn negative(cpu: &CPU) -> bool {
    cpu.status & 0x80 != 0
}

#[test]
fn lda_tax_inx_sequence() {
    let mut cpu = cpu_with_program(vec![0xa9, 0xc0, 0xaa, 0xe8, 0x00]);
    assert_eq!(cpu.run(1000), RunExit::Halted);
    assert_eq!(cpu.register_a, 0xc0);
    assert_eq!(cpu.register_x, 0xc1);
    assert!(!zero(&cpu));
    assert!(negative(&cpu));
}

#[test]
fn adc_carry_and_overflow() {
    let mut cpu = cpu_with_program(vec![0x69, 0x50, 0x00]);
    cpu.register_a = 0x50;
    assert_eq!(cpu.run(10), RunExit::Halted);
    assert_eq!(cpu.register_a, 0xa0);
    assert!(!carry(&cpu));
    assert!(overflow(&cpu));
    assert!(negative(&cpu));
    assert!(!zero(&cpu));
}

#[test]
fn sbc_borrow() {
    let mut cpu = cpu_with_program(vec![0xe9, 0xf0, 0x00]);
    cpu.register_a = 0x50;
    cpu.status |= 0x01;
    assert_eq!(cpu.run(10), RunExit::Halted);
    assert_eq!(cpu.register_a, 0x60);
    assert!(!carry(&cpu));
    // No signed overflow here: by the sign-comparison formula, subtracting
    // a negative operand from a positive accumulator with a positive result
    // leaves the overflow flag clear.
    assert!(!overflow(&cpu));
    assert!(!negative(&cpu));
    assert!(!zero(&cpu));
}

#[test]
fn jmp_indirect_page_wrap() {
    // The pointer sits at the end of a page, so the high byte of the target
    // is fetched from the start of the same page, not the next one.
    let mut cpu = cpu_with_program(vec![0x6c, 0xff, 0x10]);
    cpu.mem_write(0x10ff, 0x80);
    cpu.mem_write(0x1000, 0x50);
    cpu.step();
    assert_eq!(cpu.program_counter, 0x5080);
}

#[test]
fn jmp_absolute() {
    let mut cpu = cpu_with_program(vec![0x4c, 0x34, 0x12]);
    cpu.step();
    assert_eq!(cpu.program_counter, 0x1234);
}

#[test]
fn jsr_rts_round_trip() {
    // JSR to 0x0605, where an RTS returns to the byte after the JSR.
    let mut cpu = cpu_with_program(vec![0x20, 0x05, 0x06, 0x00, 0x00, 0x60, 0x00]);
    assert_eq!(cpu.run(10), RunExit::Halted);
    assert_eq!(cpu.program_counter, 0x0604);
    assert_eq!(cpu.stack_ptr, 0xfd);
}

#[test]
fn branch_taken_and_not_taken() {
    // BNE over one byte when Z is clear.
    let mut cpu = cpu_with_program(vec![0xa9, 0x01, 0xd0, 0x01, 0x00, 0xa9, 0x07, 0x00]);
    assert_eq!(cpu.run(10), RunExit::Halted);
    assert_eq!(cpu.register_a, 0x07);
    // BNE when Z is set falls through to the break.
    let mut cpu = cpu_with_program(vec![0xa9, 0x00, 0xd0, 0x02, 0x00, 0x00, 0xa9, 0x07, 0x00]);
    assert_eq!(cpu.run(10), RunExit::Halted);
    assert_eq!(cpu.register_a, 0x00);
}

#[test]
fn branch_forward_skips_bytes() {
    // SEC; BCS +2 skips the load, so the accumulator stays clear.
    let mut cpu = cpu_with_program(vec![0x38, 0xb0, 0x02, 0xa9, 0x09, 0x00]);
    assert_eq!(cpu.run(10), RunExit::Halted);
    assert_ne!(cpu.register_a, 0x09);
    assert_eq!(cpu.program_counter, 0x0606);
}

#[test]
fn branch_backward_loops() {
    // LDX #3, then DEX / BNE -3 until X reaches zero.
    let mut cpu = cpu_with_program(vec![0xa2, 0x03, 0xca, 0xd0, 0xfd, 0x00]);
    assert_eq!(cpu.run(20), RunExit::Halted);
    assert_eq!(cpu.register_x, 0);
    assert!(zero(&cpu));
}

#[test]
fn unknown_opcode_faults() {
    let mut cpu = cpu_with_program(vec![0x02]);
    assert_eq!(cpu.run(10), RunExit::Fault);
}

#[test]
fn write_to_rom_faults() {
    let mut cpu = cpu_with_program(vec![0xa9, 0x01, 0x8d, 0x00, 0x90, 0x00]);
    assert_eq!(cpu.run(10), RunExit::Fault);
}

#[test]
fn step_limit_reported() {
    // An infinite loop: JMP to itself.
    let mut cpu = cpu_with_program(vec![0x4c, 0x00, 0x06]);
    assert_eq!(cpu.run(25), RunExit::StepLimit);
}

#[test]
fn logic_ops() {
    // AND, ORA, EOR immediates over the accumulator.
    let mut cpu = cpu_with_program(vec![0xa9, 0b1100, 0x29, 0b1010, 0x00]);
    assert_eq!(cpu.run(10), RunExit::Halted);
    assert_eq!(cpu.register_a, 0b1000);
    let mut cpu = cpu_with_program(vec![0xa9, 0b1100, 0x09, 0b1010, 0x00]);
    assert_eq!(cpu.run(10), RunExit::Halted);
    assert_eq!(cpu.register_a, 0b1110);
    let mut cpu = cpu_with_program(vec![0xa9, 0b1100, 0x49, 0b1010, 0x00]);
    assert_eq!(cpu.run(10), RunExit::Halted);
    assert_eq!(cpu.register_a, 0b0110);
}

#[test]
fn shifts_and_rotates() {
    // ASL A: carry takes bit 7.
    let mut cpu = cpu_with_program(vec![0xa9, 0x81, 0x0a, 0x00]);
    assert_eq!(cpu.run(10), RunExit::Halted);
    assert_eq!(cpu.register_a, 0x02);
    assert!(carry(&cpu));
    // LSR A: carry takes bit 0.
    let mut cpu = cpu_with_program(vec![0xa9, 0x01, 0x4a, 0x00]);
    assert_eq!(cpu.run(10), RunExit::Halted);
    assert_eq!(cpu.register_a, 0x00);
    assert!(carry(&cpu));
    assert!(zero(&cpu));
    // ROL A with carry set: carry enters bit 0.
    let mut cpu = cpu_with_program(vec![0x38, 0xa9, 0x40, 0x2a, 0x00]);
    assert_eq!(cpu.run(10), RunExit::Halted);
    assert_eq!(cpu.register_a, 0x81);
    assert!(!carry(&cpu));
    // ROR A with carry set: carry enters bit 7.
    let mut cpu = cpu_with_program(vec![0x38, 0xa9, 0x02, 0x6a, 0x00]);
    assert_eq!(cpu.run(10), RunExit::Halted);
    assert_eq!(cpu.register_a, 0x81);
    assert!(!carry(&cpu));
}

#[test]
fn compare_sets_carry_and_zero() {
    let mut cpu = cpu_with_program(vec![0xa9, 0x10, 0xc9, 0x10, 0x00]);
    assert_eq!(cpu.run(10), RunExit::Halted);
    assert!(carry(&cpu));
    assert!(zero(&cpu));
    let mut cpu = cpu_with_program(vec![0xa9, 0x10, 0xc9, 0x20, 0x00]);
    assert_eq!(cpu.run(10), RunExit::Halted);
    assert!(!carry(&cpu));
    assert!(negative(&cpu));
}

#[test]
fn inc_dec_memory() {
    let mut cpu = cpu_with_program(vec![0xe6, 0x10, 0xe6, 0x10, 0xc6, 0x11, 0x00]);
    assert_eq!(cpu.run(10), RunExit::Halted);
    assert_eq!(cpu.mem_read(0x10), 2);
    assert_eq!(cpu.mem_read(0x11), 0xff);
}

#[test]
fn loads_stores_and_transfers() {
    // LDX #5; TXS; LDA #9; STA $10; LDY $10; TYA -> A == 9, S == 5.
    let mut cpu = cpu_with_program(
        vec![0xa2, 0x05, 0x9a, 0xa9, 0x09, 0x85, 0x10, 0xa4, 0x10, 0x98, 0x00],
    );
    assert_eq!(cpu.run(20), RunExit::Halted);
    assert_eq!(cpu.stack_ptr, 0x05);
    assert_eq!(cpu.register_y, 0x09);
    assert_eq!(cpu.register_a, 0x09);
}

#[test]
fn stack_push_pull() {
    // LDA #$3A; PHA; LDA #0; PLA -> A == 0x3A.
    let mut cpu = cpu_with_program(vec![0xa9, 0x3a, 0x48, 0xa9, 0x00, 0x68, 0x00]);
    assert_eq!(cpu.run(10), RunExit::Halted);
    assert_eq!(cpu.register_a, 0x3a);
    // PHP pushes with both break bits set; PLP clears B and keeps the unused bit.
    let mut cpu = cpu_with_program(vec![0x38, 0x08, 0x18, 0x28, 0x00]);
    assert_eq!(cpu.run(10), RunExit::Halted);
    assert!(carry(&cpu));
    assert_eq!(cpu.status & 0x10, 0);
    assert_ne!(cpu.status & 0x20, 0);
}

#[test]
fn bit_test_flags() {
    // Store $C0 at $20; LDA #$0F; BIT $20 -> Z (no overlap), N and V from bits 7/6.
    let mut cpu = cpu_with_program(vec![0xa9, 0xc0, 0x85, 0x20, 0xa9, 0x0f, 0x24, 0x20, 0x00]);
    assert_eq!(cpu.run(10), RunExit::Halted);
    assert!(zero(&cpu));
    assert!(negative(&cpu));
    assert!(overflow(&cpu));
}

#[test]
fn addressing_zero_page_indexed_wraps() {
    // Value at $0010; LDX #$20; LDA $F0,X wraps within page zero to $10.
    let mut cpu = cpu_with_program(vec![0xa9, 0x55, 0x85, 0x10, 0xa2, 0x20, 0xb5, 0xf0, 0x00]);
    assert_eq!(cpu.run(10), RunExit::Halted);
    assert_eq!(cpu.register_a, 0x55);
}

#[test]
fn addressing_indirect_indexed() {
    // Pointer at $20 -> $0300; LDY #4; value at $0304; LDA ($20),Y.
    let mut cpu = cpu_with_program(
        vec![0xa9, 0x00, 0x85, 0x20, 0xa9, 0x03, 0x85, 0x21, 0xa0, 0x04, 0xb1, 0x20, 0x00],
    );
    cpu.mem_write(0x0304, 0x77);
    assert_eq!(cpu.run(20), RunExit::Halted);
    assert_eq!(cpu.register_a, 0x77);
}

#[test]
fn undocumented_lax_and_sax() {
    // LAX $10 loads A and X at once; SAX $11 stores A & X.
    let mut cpu = cpu_with_program(vec![0xa7, 0x10, 0x87, 0x11, 0x00]);
    cpu.mem_write(0x10, 0x5a);
    assert_eq!(cpu.run(10), RunExit::Halted);
    assert_eq!(cpu.register_a, 0x5a);
    assert_eq!(cpu.register_x, 0x5a);
    assert_eq!(cpu.mem_read(0x11), 0x5a);
}

#[test]
fn undocumented_dcp_and_isb() {
    // DCP $10: decrement then compare with A.
    let mut cpu = cpu_with_program(vec![0xa9, 0x04, 0xc7, 0x10, 0x00]);
    cpu.mem_write(0x10, 0x05);
    assert_eq!(cpu.run(10), RunExit::Halted);
    assert_eq!(cpu.mem_read(0x10), 0x04);
    assert!(carry(&cpu));
    assert!(zero(&cpu));
    // ISB $10: increment then subtract.
    let mut cpu = cpu_with_program(vec![0x38, 0xa9, 0x0a, 0xe7, 0x10, 0x00]);
    cpu.mem_write(0x10, 0x02);
    assert_eq!(cpu.run(10), RunExit::Halted);
    assert_eq!(cpu.mem_read(0x10), 0x03);
    assert_eq!(cpu.register_a, 0x07);
}

#[test]
fn undocumented_anc_alr_arr_axs_lxa() {
    // ANC: AND then copy N into C.
    let mut cpu = cpu_with_program(vec![0xa9, 0xff, 0x0b, 0x80, 0x00]);
    assert_eq!(cpu.run(10), RunExit::Halted);
    assert_eq!(cpu.register_a, 0x80);
    assert!(carry(&cpu));
    // ALR: AND then LSR of A.
    let mut cpu = cpu_with_program(vec![0xa9, 0xff, 0x4b, 0x03, 0x00]);
    assert_eq!(cpu.run(10), RunExit::Halted);
    assert_eq!(cpu.register_a, 0x01);
    assert!(carry(&cpu));
    // AXS: X <- (A & X) - operand, carry set when no borrow.
    let mut cpu = cpu_with_program(vec![0xa9, 0x0f, 0xa2, 0x07, 0xcb, 0x03, 0x00]);
    assert_eq!(cpu.run(10), RunExit::Halted);
    assert_eq!(cpu.register_x, 0x04);
    assert!(carry(&cpu));
    // LXA: A <- A & operand, then X <- A.
    let mut cpu = cpu_with_program(vec![0xa9, 0x0f, 0xab, 0x0a, 0x00]);
    assert_eq!(cpu.run(10), RunExit::Halted);
    assert_eq!(cpu.register_a, 0x0a);
    assert_eq!(cpu.register_x, 0x0a);
    // ARR: AND, ROR of A, carry from bit 6, overflow from bit 6 xor bit 5.
    let mut cpu = cpu_with_program(vec![0x38, 0xa9, 0xff, 0x6b, 0xff, 0x00]);
    assert_eq!(cpu.run(10), RunExit::Halted);
    assert_eq!(cpu.register_a, 0xff);
    assert!(carry(&cpu));
    assert!(!overflow(&cpu));
}

#[test]
fn sbc_unofficial_alias() {
    let mut cpu = cpu_with_program(vec![0x38, 0xa9, 0x50, 0xeb, 0x10, 0x00]);
    assert_eq!(cpu.run(10), RunExit::Halted);
    assert_eq!(cpu.register_a, 0x40);
    assert!(carry(&cpu));
}

#[test]
fn reset_state() {
    let mut rom = test_rom();
    rom.prg_rom[0x7ffc] = 0x34;
    rom.prg_rom[0x7ffd] = 0x12;
    let mut cpu = CPU::new(Bus::new(rom));
    cpu.register_a = 9;
    cpu.register_x = 9;
    cpu.register_y = 9;
    cpu.status = 0xff;
    cpu.stack_ptr = 0;
    cpu.reset();
    assert_eq!(cpu.stack_ptr, 0xfd);
    assert_eq!(cpu.status, 0b0010_0100);
    assert_eq!(cpu.program_counter, 0x1234);
    assert_eq!(cpu.register_a, 0);
    assert_eq!(cpu.register_x, 0);
    assert_eq!(cpu.register_y, 0);
}

#[test]
fn nmi_fires_during_a_run() {
    let mut rom = test_rom();
    // The NMI vector points into the program window, at a break opcode.
    rom.prg_rom[0x7ffa] = 0x00;
    rom.prg_rom[0x7ffb] = 0x80;
    let mut cpu = CPU::new(Bus::new(rom));
    cpu.reset();
    // Enable NMI generation, then spin: LDA #$80; STA $2000; JMP self.
    cpu.load(vec![0xa9, 0x80, 0x8d, 0x00, 0x20, 0x4c, 0x05, 0x06]);
    cpu.program_counter = 0x0600;
    // Once the picture unit reaches vblank the pending NMI is serviced and
    // control lands on the vector's break opcode.
    assert_eq!(cpu.run(20000), RunExit::Halted);
    assert_eq!(cpu.program_counter, 0x8001);
    assert!(cpu.bus.take_frame());
}

#[test]
fn nmi_service_jumps_through_vector() {
    let mut rom = test_rom();
    // NMI vector points at 0x8000, which holds a BRK.
    rom.prg_rom[0x7ffa] = 0x00;
    rom.prg_rom[0x7ffb] = 0x80;
    let mut cpu = CPU::new(Bus::new(rom));
    cpu.program_counter = 0x0600;
    cpu.mem_write(0x0600, 0xa9);
    cpu.mem_write(0x0601, 0x07);
    cpu.bus.ppu.nmi_interrupt = Some(1);
    cpu.step();
    // The pending NMI was serviced before the fetch: control moved to the
    // vector, the interrupt mask is set, and the return address is stacked.
    assert_eq!(cpu.program_counter, 0x8001);
    assert_ne!(cpu.status & 0x04, 0);
    assert_eq!(cpu.stack_ptr, 0xfd - 3);
    assert_eq!(cpu.mem_read(0x01fd), 0x06);
    assert_eq!(cpu.mem_read(0x01fc), 0x00);
}
