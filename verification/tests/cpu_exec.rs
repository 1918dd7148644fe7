use nes_core::cpu::{CpuError, Flag, CPU};
use nes_core::memory::{Memory, MemoryError, ReadWriteMemory};

/// A CPU over a full-sized writable "cartridge", so tests can place bytes
/// anywhere in the address space (the bus still routes addresses below
/// $2000 to the internal RAM).
fn open_cpu() -> CPU<ReadWriteMemory> {
    CPU::new(ReadWriteMemory::new(0x1_0000))
}

/// Fetches and executes one instruction.
fn step(cpu: &mut CPU<ReadWriteMemory>) {
    let opcode = cpu.load_pc().unwrap();
    cpu.execute(opcode).unwrap();
}

#[test]
fn set_zn_matches_value_for_all_bytes() {
    let mut cpu = open_cpu();
    for v in 0..=255u8 {
        cpu.set_zn(v);
        assert_eq!(cpu.get_status(Flag::Zero), v == 0);
        assert_eq!(cpu.get_status(Flag::Negative), v & 0x80 != 0);
    }
}

#[test]
fn ram_mirrors_every_two_kilobytes() {
    let mut cpu = open_cpu();
    cpu.store(0x0005, 0x77).unwrap();
    for r in [0x0805u16, 0x1005, 0x1805, 0x1FFD] {
        let canonical = r % 0x0800;
        assert_eq!(cpu.load(r).unwrap(), cpu.load(canonical).unwrap());
    }
    assert_eq!(cpu.load(0x0805), Ok(0x77));
    cpu.store(0x1806, 0x66).unwrap();
    assert_eq!(cpu.load(0x0006), Ok(0x66));
}

#[test]
fn bus_word_round_trip() {
    let mut cpu = open_cpu();
    cpu.storew(0x0123, 0xBEEF).unwrap();
    assert_eq!(cpu.loadw(0x0123), Ok(0xBEEF));
}

#[test]
fn bus_rejects_device_regions() {
    let mut cpu = open_cpu();
    assert_eq!(cpu.load(0x2000), Err(MemoryError::Unimplemented(0x2000)));
    assert_eq!(cpu.load(0x3FFF), Err(MemoryError::Unimplemented(0x3FFF)));
    assert_eq!(cpu.load(0x401F), Err(MemoryError::Unimplemented(0x401F)));
    assert_eq!(cpu.store(0x2007, 1), Err(MemoryError::Unimplemented(0x2007)));
    assert_eq!(cpu.load(0x4020), Ok(0));
}

#[test]
fn stack_push_pull_is_lifo() {
    let mut cpu = open_cpu();
    cpu.power_up_with_pc_override(0x0200);
    let s0 = cpu.reg_s();
    cpu.push(0x42);
    assert_eq!(cpu.reg_s(), s0.wrapping_sub(1));
    assert_eq!(cpu.pull(), 0x42);
    assert_eq!(cpu.reg_s(), s0);
}

#[test]
fn stack_word_push_pull_is_lifo() {
    let mut cpu = open_cpu();
    cpu.power_up_with_pc_override(0x0200);
    let s0 = cpu.reg_s();
    cpu.pushw(0xC0DE);
    assert_eq!(cpu.reg_s(), s0.wrapping_sub(2));
    assert_eq!(cpu.pullw(), 0xC0DE);
    assert_eq!(cpu.reg_s(), s0);
}

#[test]
fn stack_wraps_at_the_byte_boundary() {
    let mut cpu = open_cpu();
    cpu.power_up_with_pc_override(0x0200);
    // Drain the stack pointer to 0, then push across the wrap.
    for _ in 0..0xFD {
        cpu.push(0);
    }
    assert_eq!(cpu.reg_s(), 0);
    cpu.pushw(0x1234);
    assert_eq!(cpu.reg_s(), 0xFE);
    assert_eq!(cpu.pullw(), 0x1234);
    assert_eq!(cpu.reg_s(), 0);
}

#[test]
fn adc_signed_overflow_case() {
    let mut cpu = open_cpu();
    cpu.power_up_with_pc_override(0x0200);
    cpu.store(0x0200, 0xA9).unwrap();  // LDA #$50
    cpu.store(0x0201, 0x50).unwrap();
    cpu.store(0x0202, 0x69).unwrap();  // ADC #$50
    cpu.store(0x0203, 0x50).unwrap();
    step(&mut cpu);
    step(&mut cpu);
    assert_eq!(cpu.reg_a(), 0xA0);
    assert!(cpu.get_status(Flag::Overflow));
    assert!(!cpu.get_status(Flag::Carry));
    assert!(cpu.get_status(Flag::Negative));
    assert!(!cpu.get_status(Flag::Zero));
}

#[test]
fn adc_carry_chain() {
    let mut cpu = open_cpu();
    cpu.power_up_with_pc_override(0x0200);
    cpu.store(0x0200, 0xA9).unwrap();  // LDA #$FF
    cpu.store(0x0201, 0xFF).unwrap();
    cpu.store(0x0202, 0x38).unwrap();  // SEC
    cpu.store(0x0203, 0x69).unwrap();  // ADC #$00 (plus carry)
    cpu.store(0x0204, 0x00).unwrap();
    step(&mut cpu);
    step(&mut cpu);
    step(&mut cpu);
    assert_eq!(cpu.reg_a(), 0x00);
    assert!(cpu.get_status(Flag::Carry));
    assert!(cpu.get_status(Flag::Zero));
    assert!(!cpu.get_status(Flag::Negative));
}

#[test]
fn cmp_equal_operands() {
    let mut cpu = open_cpu();
    cpu.power_up_with_pc_override(0x0200);
    cpu.store(0x0200, 0xA9).unwrap();  // LDA #$10
    cpu.store(0x0201, 0x10).unwrap();
    cpu.store(0x0202, 0xC9).unwrap();  // CMP #$10
    cpu.store(0x0203, 0x10).unwrap();
    step(&mut cpu);
    step(&mut cpu);
    assert!(cpu.get_status(Flag::Zero));
    assert!(cpu.get_status(Flag::Carry));
    assert!(!cpu.get_status(Flag::Negative));
}

#[test]
fn cmp_smaller_register_borrows() {
    let mut cpu = open_cpu();
    cpu.power_up_with_pc_override(0x0200);
    cpu.store(0x0200, 0xA9).unwrap();  // LDA #$10
    cpu.store(0x0201, 0x10).unwrap();
    cpu.store(0x0202, 0xC9).unwrap();  // CMP #$20
    cpu.store(0x0203, 0x20).unwrap();
    step(&mut cpu);
    step(&mut cpu);
    assert!(!cpu.get_status(Flag::Zero));
    assert!(!cpu.get_status(Flag::Carry));
    // 0x10 - 0x20 wraps to 0xF0, whose bit 7 is set.
    assert!(cpu.get_status(Flag::Negative));
}

#[test]
fn jsr_rts_round_trip() {
    let mut cpu = open_cpu();
    cpu.power_up_with_pc_override(0x0200);
    let s0 = cpu.reg_s();
    cpu.store(0x0200, 0x20).unwrap();  // JSR $0210
    cpu.store(0x0201, 0x10).unwrap();
    cpu.store(0x0202, 0x02).unwrap();
    cpu.store(0x0210, 0x60).unwrap();  // RTS
    step(&mut cpu);
    assert_eq!(cpu.reg_pc(), 0x0210);
    assert_eq!(cpu.reg_s(), s0.wrapping_sub(2));
    step(&mut cpu);
    assert_eq!(cpu.reg_pc(), 0x0203);
    assert_eq!(cpu.reg_s(), s0);
}

#[test]
fn branch_not_taken_passes_the_instruction() {
    let mut cpu = open_cpu();
    cpu.power_up_with_pc_override(0x0200);
    cpu.store(0x0200, 0xB0).unwrap();  // BCS +5, carry clear
    cpu.store(0x0201, 0x05).unwrap();
    step(&mut cpu);
    assert_eq!(cpu.reg_pc(), 0x0202);
}

#[test]
fn branch_taken_forward() {
    let mut cpu = open_cpu();
    cpu.power_up_with_pc_override(0x0200);
    cpu.sec();
    cpu.store(0x0200, 0xB0).unwrap();  // BCS +5
    cpu.store(0x0201, 0x05).unwrap();
    step(&mut cpu);
    assert_eq!(cpu.reg_pc(), 0x0207);
}

#[test]
fn branch_taken_backward() {
    let mut cpu = open_cpu();
    cpu.power_up_with_pc_override(0x0200);
    cpu.sec();
    cpu.store(0x0200, 0xB0).unwrap();  // BCS -5 (displacement $FB)
    cpu.store(0x0201, 0xFB).unwrap();
    step(&mut cpu);
    assert_eq!(cpu.reg_pc(), 0x01FD);
}

#[test]
fn unsupported_opcode_is_reported() {
    let mut cpu = open_cpu();
    cpu.power_up_with_pc_override(0x0200);
    assert_eq!(cpu.execute(0x02), Err(CpuError::UnsupportedOpcode(0x02)));
    assert_eq!(cpu.reg_pc(), 0x0200);
}

#[test]
fn inc_and_dec_wrap_and_set_flags() {
    let mut cpu = open_cpu();
    cpu.power_up_with_pc_override(0x0200);
    cpu.store(0x0010, 0xFF).unwrap();
    cpu.store(0x0200, 0xE6).unwrap();  // INC $10
    cpu.store(0x0201, 0x10).unwrap();
    cpu.store(0x0202, 0xC6).unwrap();  // DEC $10
    cpu.store(0x0203, 0x10).unwrap();
    step(&mut cpu);
    assert_eq!(cpu.load(0x0010), Ok(0x00));
    assert!(cpu.get_status(Flag::Zero));
    step(&mut cpu);
    assert_eq!(cpu.load(0x0010), Ok(0xFF));
    assert!(cpu.get_status(Flag::Negative));
}

#[test]
fn asl_and_lsr_move_bits_through_carry() {
    let mut cpu = open_cpu();
    cpu.power_up_with_pc_override(0x0200);
    cpu.store(0x0010, 0x81).unwrap();
    cpu.store(0x0200, 0x06).unwrap();  // ASL $10
    cpu.store(0x0201, 0x10).unwrap();
    cpu.store(0x0202, 0x46).unwrap();  // LSR $10
    cpu.store(0x0203, 0x10).unwrap();
    step(&mut cpu);
    assert_eq!(cpu.load(0x0010), Ok(0x02));
    assert!(cpu.get_status(Flag::Carry));
    step(&mut cpu);
    assert_eq!(cpu.load(0x0010), Ok(0x01));
    assert!(!cpu.get_status(Flag::Carry));
}

#[test]
fn bit_reflects_operand_bits() {
    let mut cpu = open_cpu();
    cpu.power_up_with_pc_override(0x0200);
    cpu.store(0x0020, 0xC0).unwrap();
    cpu.store(0x0200, 0xA9).unwrap();  // LDA #$0F
    cpu.store(0x0201, 0x0F).unwrap();
    cpu.store(0x0202, 0x24).unwrap();  // BIT $20
    cpu.store(0x0203, 0x20).unwrap();
    step(&mut cpu);
    step(&mut cpu);
    assert!(cpu.get_status(Flag::Negative));
    assert!(cpu.get_status(Flag::Overflow));
    assert!(cpu.get_status(Flag::Zero));
    assert_eq!(cpu.reg_a(), 0x0F);
}

#[test]
fn indexed_and_indirect_modes_resolve() {
    let mut cpu = open_cpu();
    cpu.power_up_with_pc_override(0x0200);
    // Zero-page pointer $40/$41 -> $0300; memory at $0300 + Y.
    cpu.store(0x0040, 0x00).unwrap();
    cpu.store(0x0041, 0x03).unwrap();
    cpu.store(0x0302, 0x99).unwrap();
    cpu.store(0x0200, 0xA0).unwrap();  // LDY #$02
    cpu.store(0x0201, 0x02).unwrap();
    cpu.store(0x0202, 0xB1).unwrap();  // LDA ($40),Y
    cpu.store(0x0203, 0x40).unwrap();
    step(&mut cpu);
    step(&mut cpu);
    assert_eq!(cpu.reg_a(), 0x99);

    // X-indexed indirect: pointer at $40 + X.
    cpu.store(0x0050, 0x02).unwrap();
    cpu.store(0x0051, 0x03).unwrap();
    cpu.store(0x0204, 0xA2).unwrap();  // LDX #$10
    cpu.store(0x0205, 0x10).unwrap();
    cpu.store(0x0206, 0xA1).unwrap();  // LDA ($40,X)
    cpu.store(0x0207, 0x40).unwrap();
    step(&mut cpu);
    step(&mut cpu);
    assert_eq!(cpu.reg_a(), 0x99);
}

#[test]
fn jmp_absolute_and_indirect() {
    let mut cpu = open_cpu();
    cpu.power_up_with_pc_override(0x0200);
    cpu.store(0x0200, 0x4C).unwrap();  // JMP $0300
    cpu.store(0x0201, 0x00).unwrap();
    cpu.store(0x0202, 0x03).unwrap();
    step(&mut cpu);
    assert_eq!(cpu.reg_pc(), 0x0300);
    cpu.store(0x0300, 0x6C).unwrap();  // JMP ($0310)
    cpu.store(0x0301, 0x10).unwrap();
    cpu.store(0x0302, 0x03).unwrap();
    cpu.storew(0x0310, 0x0400).unwrap();
    step(&mut cpu);
    assert_eq!(cpu.reg_pc(), 0x0400);
}

#[test]
fn php_plp_round_trips_the_status_byte() {
    let mut cpu = open_cpu();
    cpu.power_up_with_pc_override(0x0200);
    cpu.sec();
    cpu.sed();
    let status = cpu.reg_status();
    cpu.php();
    cpu.clc();
    cpu.cld();
    assert_ne!(cpu.reg_status(), status);
    cpu.plp();
    assert_eq!(cpu.reg_status(), status);
}

#[test]
fn brk_pushes_state_and_takes_the_irq_vector() {
    let mut cpu = open_cpu();
    cpu.power_up_with_pc_override(0x0201);
    let s0 = cpu.reg_s();
    let status_before = cpu.reg_status();
    cpu.storew(0xFFFE, 0x0500).unwrap();
    let r = cpu.brk();
    assert_eq!(r, Ok(()));
    assert_eq!(cpu.reg_pc(), 0x0500);
    assert_eq!(cpu.reg_s(), s0.wrapping_sub(3));
    assert!(cpu.get_status(Flag::Irq));
    // The pushed status byte has Break set.
    let pushed_status = cpu.load(0x0100 + s0.wrapping_sub(2) as u16).unwrap();
    assert_eq!(pushed_status, status_before | 0x10);
    // The pushed return address is the entry pc plus one.
    let lo = cpu.load(0x0100 + s0.wrapping_sub(1) as u16).unwrap();
    let hi = cpu.load(0x0100 + s0 as u16).unwrap();
    assert_eq!(lo as u16 | (hi as u16) << 8, 0x0202);
}

#[test]
fn rti_restores_status_and_pc() {
    let mut cpu = open_cpu();
    cpu.power_up_with_pc_override(0x0200);
    cpu.pushw(0x0456);
    cpu.push(0xC3);
    cpu.rti();
    assert_eq!(cpu.reg_status(), 0xC3);
    assert_eq!(cpu.reg_pc(), 0x0456);
}

#[test]
fn register_steps_set_flags() {
    let mut cpu = open_cpu();
    cpu.power_up_with_pc_override(0x0200);
    cpu.inx();
    assert_eq!(cpu.reg_x(), 1);
    assert!(!cpu.get_status(Flag::Zero));
    cpu.dex();
    assert_eq!(cpu.reg_x(), 0);
    assert!(cpu.get_status(Flag::Zero));
    cpu.dey();
    assert_eq!(cpu.reg_y(), 0xFF);
    assert!(cpu.get_status(Flag::Negative));
    cpu.iny();
    assert_eq!(cpu.reg_y(), 0);
    assert!(cpu.get_status(Flag::Zero));
}

#[test]
fn logic_ops_combine_with_the_accumulator() {
    let mut cpu = open_cpu();
    cpu.power_up_with_pc_override(0x0200);
    cpu.store(0x0200, 0xA9).unwrap();  // LDA #$F0
    cpu.store(0x0201, 0xF0).unwrap();
    cpu.store(0x0202, 0x29).unwrap();  // AND #$3C
    cpu.store(0x0203, 0x3C).unwrap();
    cpu.store(0x0204, 0x09).unwrap();  // ORA #$01
    cpu.store(0x0205, 0x01).unwrap();
    cpu.store(0x0206, 0x49).unwrap();  // EOR #$FF
    cpu.store(0x0207, 0xFF).unwrap();
    step(&mut cpu);
    step(&mut cpu);
    assert_eq!(cpu.reg_a(), 0x30);
    step(&mut cpu);
    assert_eq!(cpu.reg_a(), 0x31);
    step(&mut cpu);
    assert_eq!(cpu.reg_a(), 0xCE);
    assert!(cpu.get_status(Flag::Negative));
}

#[test]
fn fetch_from_a_device_region_is_fatal() {
    let mut cpu = open_cpu();
    cpu.power_up_with_pc_override(0x2000);
    assert_eq!(
        cpu.load_pc(),
        Err(CpuError::Memory(MemoryError::Unimplemented(0x2000)))
    );
    // The failed fetch leaves the program counter where it was.
    assert_eq!(cpu.reg_pc(), 0x2000);
}

#[test]
fn zero_page_indexing_wraps_within_the_page() {
    let mut cpu = open_cpu();
    cpu.power_up_with_pc_override(0x0200);
    cpu.store(0x000F, 0x5E).unwrap();
    cpu.store(0x0200, 0xA2).unwrap();  // LDX #$FF
    cpu.store(0x0201, 0xFF).unwrap();
    cpu.store(0x0202, 0xB5).unwrap();  // LDA $10,X -> ($10 + $FF) & $FF = $0F
    cpu.store(0x0203, 0x10).unwrap();
    step(&mut cpu);
    step(&mut cpu);
    assert_eq!(cpu.reg_a(), 0x5E);
}

#[test]
fn absolute_indexed_modes_add_the_register() {
    let mut cpu = open_cpu();
    cpu.power_up_with_pc_override(0x0200);
    cpu.store(0x0305, 0x21).unwrap();
    cpu.store(0x0200, 0xA0).unwrap();  // LDY #$05
    cpu.store(0x0201, 0x05).unwrap();
    cpu.store(0x0202, 0xB9).unwrap();  // LDA $0300,Y
    cpu.store(0x0203, 0x00).unwrap();
    cpu.store(0x0204, 0x03).unwrap();
    step(&mut cpu);
    step(&mut cpu);
    assert_eq!(cpu.reg_a(), 0x21);
}

#[test]
fn pha_pla_move_the_accumulator_through_the_stack() {
    let mut cpu = open_cpu();
    cpu.power_up_with_pc_override(0x0200);
    cpu.store(0x0200, 0xA9).unwrap();  // LDA #$37
    cpu.store(0x0201, 0x37).unwrap();
    step(&mut cpu);
    cpu.pha();
    cpu.store(0x0202, 0xA9).unwrap();  // LDA #$00
    cpu.store(0x0203, 0x00).unwrap();
    step(&mut cpu);
    assert_eq!(cpu.reg_a(), 0x00);
    cpu.pla();
    assert_eq!(cpu.reg_a(), 0x37);
}

#[test]
fn reset_leaves_the_machine_as_it_is() {
    let mut cpu = open_cpu();
    cpu.power_up_with_pc_override(0x0200);
    cpu.sec();
    let (a, s, pc, status) = (cpu.reg_a(), cpu.reg_s(), cpu.reg_pc(), cpu.reg_status());
    cpu.reset();
    assert_eq!(cpu.reg_a(), a);
    assert_eq!(cpu.reg_s(), s);
    assert_eq!(cpu.reg_pc(), pc);
    assert_eq!(cpu.reg_status(), status);
}

#[test]
fn accumulator_shifts() {
    let mut cpu = open_cpu();
    cpu.power_up_with_pc_override(0x0200);
    cpu.store(0x0200, 0xA9).unwrap();  // LDA #$81
    cpu.store(0x0201, 0x81).unwrap();
    step(&mut cpu);
    cpu.asla();
    assert_eq!(cpu.reg_a(), 0x02);
    assert!(cpu.get_status(Flag::Carry));
    cpu.lsra();
    assert_eq!(cpu.reg_a(), 0x01);
    assert!(!cpu.get_status(Flag::Carry));
}
