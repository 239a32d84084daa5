use nes_core::CPU;
use nes_core::Catridge;
use nes_core::dispatch::AddressingMode;
use nes_core::flags::Flag;

/// A processor reset with `program` in internal memory at address 0.
/// With no cartridge attached the reset vector reads as 0, so execution
/// starts at address 0.
fn boot(program: &[u8]) -> CPU {
    let mut cpu = CPU::new();
    for (i, b) in program.iter().enumerate() {
        cpu.bus.write_byte(i as u16, *b);
    }
    cpu.reset();
    cpu
}

fn run(cpu: &mut CPU) {
    cpu.execute_next_instruction().unwrap();
}

#[test]
fn reset_defaults_without_a_cartridge() {
    let mut cpu = CPU::new();
    cpu.reset();
    assert_eq!(cpu.pc, 0);
    assert_eq!(cpu.sp, 0xff);
    assert_eq!(cpu.a, 0);
    assert_eq!(cpu.x, 0);
    assert_eq!(cpu.y, 0);
    assert_eq!(cpu.flags, 0x20);
    assert!(cpu.get_flag(Flag::Unused));
    // two vector reads plus seven dummy cycles
    assert_eq!(cpu.bus.cycles_count, 9);
}

#[test]
fn reset_loads_the_program_counter_from_the_reset_vector() {
    let mut img = vec![0u8; 16 + 0x4000];
    img[4] = 1;
    img[16 + 0x3ffc] = 0x34;
    img[16 + 0x3ffd] = 0x12;
    let cart = Catridge::new(&img).unwrap();
    let mut cpu = CPU::new();
    cpu.bus.connect_catridge(cart);
    cpu.reset();
    assert_eq!(cpu.pc, 0x1234);
    assert!(cpu.get_flag(Flag::Unused));
}

#[test]
fn load_sets_zero_iff_zero_and_negative_iff_bit7() {
    let mut cpu = boot(&[0xa9, 0x00, 0xa9, 0x80, 0xa9, 0x05]);
    run(&mut cpu);
    assert_eq!(cpu.a, 0x00);
    assert!(cpu.get_flag(Flag::Zero));
    assert!(!cpu.get_flag(Flag::Negative));
    run(&mut cpu);
    assert_eq!(cpu.a, 0x80);
    assert!(!cpu.get_flag(Flag::Zero));
    assert!(cpu.get_flag(Flag::Negative));
    run(&mut cpu);
    assert_eq!(cpu.a, 0x05);
    assert!(!cpu.get_flag(Flag::Zero));
    assert!(!cpu.get_flag(Flag::Negative));
}

#[test]
fn loads_into_x_and_y_set_the_same_flags() {
    let mut cpu = boot(&[0xa2, 0x00, 0xa0, 0xff]);
    run(&mut cpu);
    assert_eq!(cpu.x, 0);
    assert!(cpu.get_flag(Flag::Zero));
    run(&mut cpu);
    assert_eq!(cpu.y, 0xff);
    assert!(cpu.get_flag(Flag::Negative));
    assert!(!cpu.get_flag(Flag::Zero));
}

#[test]
fn add_with_carry_signed_overflow_fixture() {
    let mut cpu = boot(&[0xa9, 0x50, 0x69, 0x50]);
    run(&mut cpu);
    run(&mut cpu);
    assert_eq!(cpu.a, 0xa0);
    assert!(cpu.get_flag(Flag::Overflow));
    assert!(cpu.get_flag(Flag::Negative));
    assert!(!cpu.get_flag(Flag::Carry));
    assert!(!cpu.get_flag(Flag::Zero));
}

#[test]
fn add_with_carry_chains_the_carry() {
    // sec; lda #$ff; adc #$00 — the carry-in pushes the sum past 255
    let mut cpu = boot(&[0x38, 0xa9, 0xff, 0x69, 0x00]);
    run(&mut cpu);
    run(&mut cpu);
    run(&mut cpu);
    assert_eq!(cpu.a, 0x00);
    assert!(cpu.get_flag(Flag::Carry));
    assert!(cpu.get_flag(Flag::Zero));
    assert!(!cpu.get_flag(Flag::Overflow));
}

#[test]
fn subtract_with_carry_without_borrow() {
    // sec; lda #$60; sbc #$20 — carry stays set when no borrow occurs
    let mut cpu = boot(&[0x38, 0xa9, 0x60, 0xe9, 0x20]);
    run(&mut cpu);
    run(&mut cpu);
    run(&mut cpu);
    assert_eq!(cpu.a, 0x40);
    assert!(cpu.get_flag(Flag::Carry));
    assert!(!cpu.get_flag(Flag::Zero));
    assert!(!cpu.get_flag(Flag::Negative));
}

#[test]
fn absolute_y_load_pays_the_page_crossing_cycle() {
    // ldy #$01; lda $20ff,y
    let mut cpu = boot(&[0xa0, 0x01, 0xb9, 0xff, 0x20]);
    run(&mut cpu);
    let before = cpu.bus.cycles_count;
    run(&mut cpu);
    assert_eq!(cpu.bus.cycles_count, before + 5);
}

#[test]
fn subtract_with_carry_matches_add_of_complement() {
    // sec; lda #$50; sbc #$f0
    let mut sub = boot(&[0x38, 0xa9, 0x50, 0xe9, 0xf0]);
    run(&mut sub);
    run(&mut sub);
    run(&mut sub);
    // sec; lda #$50; adc #$0f  (0x0f is the bitwise complement of 0xf0)
    let mut add = boot(&[0x38, 0xa9, 0x50, 0x69, 0x0f]);
    run(&mut add);
    run(&mut add);
    run(&mut add);
    assert_eq!(sub.a, add.a);
    assert_eq!(sub.flags, add.flags);
    assert_eq!(sub.a, 0x60);
    assert!(!sub.get_flag(Flag::Carry));
    assert!(!sub.get_flag(Flag::Overflow));
}

#[test]
fn indirect_jump_reproduces_the_page_boundary_bug() {
    // jmp ($02ff): low byte from $02ff, high byte from $0200 — not $0300
    let mut cpu = boot(&[0x6c, 0xff, 0x02]);
    cpu.bus.write_byte(0x02ff, 0x40);
    cpu.bus.write_byte(0x0200, 0x80);
    cpu.bus.write_byte(0x0300, 0x99);
    run(&mut cpu);
    assert_eq!(cpu.pc, 0x8040);
}

#[test]
fn indirect_jump_off_the_boundary_reads_the_next_byte() {
    let mut cpu = boot(&[0x6c, 0xfe, 0x02]);
    cpu.bus.write_byte(0x02fe, 0x40);
    cpu.bus.write_byte(0x02ff, 0x80);
    run(&mut cpu);
    assert_eq!(cpu.pc, 0x8040);
}

#[test]
fn stack_word_round_trip_restores_the_stack_pointer() {
    let mut cpu = boot(&[]);
    let sp = cpu.sp;
    cpu.push_word(0xbeef);
    assert_eq!(cpu.sp, sp.wrapping_sub(2));
    assert_eq!(cpu.pop_word(), 0xbeef);
    assert_eq!(cpu.sp, sp);
}

#[test]
fn stack_word_round_trip_wraps_at_the_page_edge() {
    let mut cpu = boot(&[]);
    cpu.sp = 0x00;
    cpu.push_word(0x1234);
    assert_eq!(cpu.sp, 0xfe);
    assert_eq!(cpu.pop_word(), 0x1234);
    assert_eq!(cpu.sp, 0x00);
}

#[test]
fn push_and_pop_accumulator() {
    // lda #$42; pha; lda #$00; pla
    let mut cpu = boot(&[0xa9, 0x42, 0x48, 0xa9, 0x00, 0x68]);
    run(&mut cpu);
    run(&mut cpu);
    run(&mut cpu);
    assert!(cpu.get_flag(Flag::Zero));
    run(&mut cpu);
    assert_eq!(cpu.a, 0x42);
    assert!(!cpu.get_flag(Flag::Zero));
    assert_eq!(cpu.sp, 0xff);
}

#[test]
fn flag_restore_from_the_stack_forces_the_unused_flag() {
    let mut cpu = boot(&[0x28]);
    cpu.push_byte(0x00);
    run(&mut cpu);
    assert_eq!(cpu.flags, 0x20);
    assert!(cpu.get_flag(Flag::Unused));
}

#[test]
fn shift_left_moves_bit7_into_carry() {
    // lda #$80; asl a
    let mut cpu = boot(&[0xa9, 0x80, 0x0a]);
    run(&mut cpu);
    run(&mut cpu);
    assert_eq!(cpu.a, 0x00);
    assert!(cpu.get_flag(Flag::Carry));
    assert!(cpu.get_flag(Flag::Zero));
    assert!(!cpu.get_flag(Flag::Negative));
}

#[test]
fn shift_right_moves_bit0_into_carry() {
    let mut cpu = boot(&[0xa9, 0x01, 0x4a]);
    run(&mut cpu);
    run(&mut cpu);
    assert_eq!(cpu.a, 0x00);
    assert!(cpu.get_flag(Flag::Carry));
    assert!(cpu.get_flag(Flag::Zero));
}

#[test]
fn rotate_left_shifts_the_old_carry_in_at_bit0() {
    // sec; lda #$00; rol a
    let mut cpu = boot(&[0x38, 0xa9, 0x00, 0x2a]);
    run(&mut cpu);
    run(&mut cpu);
    run(&mut cpu);
    assert_eq!(cpu.a, 0x01);
    assert!(!cpu.get_flag(Flag::Carry));
}

#[test]
fn rotate_right_shifts_the_old_carry_in_at_bit7() {
    let mut cpu = boot(&[0x38, 0xa9, 0x00, 0x6a]);
    run(&mut cpu);
    run(&mut cpu);
    run(&mut cpu);
    assert_eq!(cpu.a, 0x80);
    assert!(!cpu.get_flag(Flag::Carry));
    assert!(cpu.get_flag(Flag::Negative));
}

#[test]
fn shift_of_a_memory_operand_writes_back() {
    // asl $10
    let mut cpu = boot(&[0x06, 0x10]);
    cpu.bus.write_byte(0x0010, 0x41);
    run(&mut cpu);
    assert_eq!(cpu.bus.read_byte(0x0010), 0x82);
    assert!(cpu.get_flag(Flag::Negative));
    assert!(!cpu.get_flag(Flag::Carry));
}

#[test]
fn bitwise_operations_combine_with_the_accumulator() {
    // lda #$cc; and #$aa; ora #$01; eor #$ff
    let mut cpu = boot(&[0xa9, 0xcc, 0x29, 0xaa, 0x09, 0x01, 0x49, 0xff]);
    run(&mut cpu);
    run(&mut cpu);
    assert_eq!(cpu.a, 0x88);
    run(&mut cpu);
    assert_eq!(cpu.a, 0x89);
    run(&mut cpu);
    assert_eq!(cpu.a, 0x76);
    assert!(!cpu.get_flag(Flag::Negative));
    assert!(!cpu.get_flag(Flag::Zero));
}

#[test]
fn bit_test_copies_operand_bits_not_the_and_result() {
    // lda #$00; bit $10  — operand $40: Zero from the AND, Overflow from bit 6
    let mut cpu = boot(&[0xa9, 0x00, 0x24, 0x10]);
    cpu.bus.write_byte(0x0010, 0x40);
    run(&mut cpu);
    run(&mut cpu);
    assert!(cpu.get_flag(Flag::Zero));
    assert!(cpu.get_flag(Flag::Overflow));
    assert!(!cpu.get_flag(Flag::Negative));
    // operand $80: Negative from bit 7 even though the AND is nonzero
    let mut cpu = boot(&[0xa9, 0xff, 0x24, 0x10]);
    cpu.bus.write_byte(0x0010, 0x80);
    run(&mut cpu);
    run(&mut cpu);
    assert!(!cpu.get_flag(Flag::Zero));
    assert!(!cpu.get_flag(Flag::Overflow));
    assert!(cpu.get_flag(Flag::Negative));
}

#[test]
fn compare_sets_carry_iff_register_not_below_operand() {
    let mut cpu = boot(&[0xa9, 0x50, 0xc9, 0x30, 0xc9, 0x50, 0xc9, 0x60]);
    run(&mut cpu);
    run(&mut cpu);
    assert!(cpu.get_flag(Flag::Carry));
    assert!(!cpu.get_flag(Flag::Zero));
    run(&mut cpu);
    assert!(cpu.get_flag(Flag::Carry));
    assert!(cpu.get_flag(Flag::Zero));
    run(&mut cpu);
    assert!(!cpu.get_flag(Flag::Carry));
    assert!(cpu.get_flag(Flag::Negative));
}

#[test]
fn compare_works_on_x_and_y() {
    // ldx #$10; cpx #$10; ldy #$00; cpy #$01
    let mut cpu = boot(&[0xa2, 0x10, 0xe0, 0x10, 0xa0, 0x00, 0xc0, 0x01]);
    run(&mut cpu);
    run(&mut cpu);
    assert!(cpu.get_flag(Flag::Zero));
    assert!(cpu.get_flag(Flag::Carry));
    run(&mut cpu);
    run(&mut cpu);
    assert!(!cpu.get_flag(Flag::Carry));
    assert!(cpu.get_flag(Flag::Negative));
}

#[test]
fn increment_and_decrement_memory_wrap() {
    // inc $10; dec $10
    let mut cpu = boot(&[0xe6, 0x10, 0xc6, 0x10]);
    cpu.bus.write_byte(0x0010, 0xff);
    run(&mut cpu);
    assert_eq!(cpu.bus.read_byte(0x0010), 0x00);
    assert!(cpu.get_flag(Flag::Zero));
    run(&mut cpu);
    assert_eq!(cpu.bus.read_byte(0x0010), 0xff);
    assert!(cpu.get_flag(Flag::Negative));
}

#[test]
fn increment_and_decrement_registers_wrap() {
    // ldx #$ff; inx; ldy #$00; dey
    let mut cpu = boot(&[0xa2, 0xff, 0xe8, 0xa0, 0x00, 0x88]);
    run(&mut cpu);
    run(&mut cpu);
    assert_eq!(cpu.x, 0x00);
    assert!(cpu.get_flag(Flag::Zero));
    run(&mut cpu);
    run(&mut cpu);
    assert_eq!(cpu.y, 0xff);
    assert!(cpu.get_flag(Flag::Negative));
}

#[test]
fn transfer_to_stack_pointer_touches_no_flag() {
    // ldx #$80; txs
    let mut cpu = boot(&[0xa2, 0x80, 0x9a]);
    run(&mut cpu);
    let flags = cpu.flags;
    run(&mut cpu);
    assert_eq!(cpu.sp, 0x80);
    assert_eq!(cpu.flags, flags);
}

#[test]
fn transfers_copy_and_set_flags() {
    // lda #$00; tax; tay; ldx #$80; txa; tsx
    let mut cpu = boot(&[0xa9, 0x00, 0xaa, 0xa8, 0xa2, 0x80, 0x8a, 0xba]);
    run(&mut cpu);
    run(&mut cpu);
    assert_eq!(cpu.x, 0);
    assert!(cpu.get_flag(Flag::Zero));
    run(&mut cpu);
    assert_eq!(cpu.y, 0);
    run(&mut cpu);
    run(&mut cpu);
    assert_eq!(cpu.a, 0x80);
    assert!(cpu.get_flag(Flag::Negative));
    run(&mut cpu);
    assert_eq!(cpu.x, 0xff);
    assert!(cpu.get_flag(Flag::Negative));
}

#[test]
fn stores_write_registers_without_touching_flags() {
    // lda #$42; sta $10; ldx #$01; stx $11; ldy #$02; sty $12
    let mut cpu = boot(&[0xa9, 0x42, 0x85, 0x10, 0xa2, 0x01, 0x86, 0x11, 0xa0, 0x02, 0x84, 0x12]);
    for _ in 0..6 {
        run(&mut cpu);
    }
    assert_eq!(cpu.bus.read_byte(0x0010), 0x42);
    assert_eq!(cpu.bus.read_byte(0x0011), 0x01);
    assert_eq!(cpu.bus.read_byte(0x0012), 0x02);
}

#[test]
fn subroutine_call_pushes_the_return_address_minus_one() {
    // jsr $0005; nop; nop; rts at $0005
    let mut cpu = boot(&[0x20, 0x05, 0x00, 0xea, 0xea, 0x60]);
    run(&mut cpu);
    assert_eq!(cpu.pc, 0x0005);
    assert_eq!(cpu.sp, 0xfd);
    // the pushed word is the address of the call's last byte
    assert_eq!(cpu.bus.read_byte(0x01ff), 0x00);
    assert_eq!(cpu.bus.read_byte(0x01fe), 0x02);
    run(&mut cpu);
    assert_eq!(cpu.pc, 0x0003);
    assert_eq!(cpu.sp, 0xff);
}

#[test]
fn software_interrupt_and_return_from_interrupt() {
    let mut cpu = boot(&[0x00]);
    let before = cpu.bus.cycles_count;
    run(&mut cpu);
    // vector at $fffe reads 0 with no cartridge
    assert_eq!(cpu.pc, 0x0000);
    assert_eq!(cpu.sp, 0xfc);
    assert_eq!(cpu.bus.cycles_count, before + 6);
    // the pushed flag byte carries Break forced set
    assert_eq!(cpu.bus.read_byte(0x01fd), 0x30);
    // run rti from address 0
    cpu.bus.write_byte(0x0000, 0x40);
    run(&mut cpu);
    assert_eq!(cpu.pc, 0x0001);
    assert_eq!(cpu.flags, 0x30);
}

#[test]
fn taken_branches_cost_extra_cycles() {
    // zero is clear after reset, so bne is taken
    let mut cpu = boot(&[0xd0, 0x02]);
    let before = cpu.bus.cycles_count;
    run(&mut cpu);
    assert_eq!(cpu.pc, 0x0003);
    assert_eq!(cpu.bus.cycles_count, before + 3);
    // beq is not taken: two cycles, fall through
    let mut cpu = boot(&[0xf0, 0x02]);
    let before = cpu.bus.cycles_count;
    run(&mut cpu);
    assert_eq!(cpu.pc, 0x0002);
    assert_eq!(cpu.bus.cycles_count, before + 2);
}

#[test]
fn taken_branch_crossing_a_page_costs_one_more_cycle() {
    // jmp $00f0, then bne with a large offset crossing into page 1
    let mut cpu = boot(&[0x4c, 0xf0, 0x00]);
    cpu.bus.write_byte(0x00f0, 0xd0);
    cpu.bus.write_byte(0x00f1, 0x7f);
    run(&mut cpu);
    assert_eq!(cpu.pc, 0x00f0);
    let before = cpu.bus.cycles_count;
    run(&mut cpu);
    // target = $f1 (offset operand address) + $7f
    assert_eq!(cpu.pc, 0x0170);
    assert_eq!(cpu.bus.cycles_count, before + 4);
}

#[test]
fn branches_follow_their_flags() {
    // sec; bcs over one byte; clc; bcc over one byte
    // (a branch target is the offset operand's address plus the offset)
    let mut cpu = boot(&[0x38, 0xb0, 0x02, 0xff, 0x18, 0x90, 0x02, 0xff, 0xea]);
    run(&mut cpu);
    run(&mut cpu);
    assert_eq!(cpu.pc, 0x0004);
    run(&mut cpu);
    run(&mut cpu);
    assert_eq!(cpu.pc, 0x0008);
}

#[test]
fn overflow_branches_and_clear_overflow() {
    // lda #$50; adc #$50 sets overflow; bvs over one byte; clv; bvc over one byte
    let mut cpu = boot(&[0xa9, 0x50, 0x69, 0x50, 0x70, 0x02, 0xff, 0xb8, 0x50, 0x02, 0xff, 0xea]);
    run(&mut cpu);
    run(&mut cpu);
    run(&mut cpu);
    assert_eq!(cpu.pc, 0x0007);
    run(&mut cpu);
    assert!(!cpu.get_flag(Flag::Overflow));
    run(&mut cpu);
    assert_eq!(cpu.pc, 0x000b);
}

#[test]
fn sign_branches_follow_negative() {
    // lda #$80; bmi over one byte; lda #$01; bpl over one byte
    let mut cpu = boot(&[0xa9, 0x80, 0x30, 0x02, 0xff, 0xa9, 0x01, 0x10, 0x02, 0xff, 0xea]);
    run(&mut cpu);
    run(&mut cpu);
    assert_eq!(cpu.pc, 0x0005);
    run(&mut cpu);
    run(&mut cpu);
    assert_eq!(cpu.pc, 0x000a);
}

#[test]
fn explicit_flag_instructions_set_and_clear() {
    let mut cpu = boot(&[0x38, 0xf8, 0x78, 0x18, 0xd8, 0x58]);
    run(&mut cpu);
    assert!(cpu.get_flag(Flag::Carry));
    run(&mut cpu);
    assert!(cpu.get_flag(Flag::DecimalMode));
    run(&mut cpu);
    assert!(cpu.get_flag(Flag::InterruptDisable));
    run(&mut cpu);
    assert!(!cpu.get_flag(Flag::Carry));
    run(&mut cpu);
    assert!(!cpu.get_flag(Flag::DecimalMode));
    run(&mut cpu);
    assert!(!cpu.get_flag(Flag::InterruptDisable));
}

#[test]
fn unsupported_opcode_is_a_reported_fault() {
    let mut cpu = boot(&[0x02]);
    let before = cpu.bus.cycles_count;
    let fault = cpu.execute_next_instruction().unwrap_err();
    assert_eq!(fault.opcode, 0x02);
    assert_eq!(fault.pc, 0x0001);
    // only the fetch happened: one cycle, program counter past the byte
    assert_eq!(cpu.pc, 0x0001);
    assert_eq!(cpu.bus.cycles_count, before + 1);
}

#[test]
fn absolute_x_charges_an_extra_cycle_only_on_a_page_crossing() {
    // base $20ff + x=1 crosses into $2100
    let mut cpu = boot(&[0xff, 0x20]);
    cpu.x = 1;
    let before = cpu.bus.cycles_count;
    let address = cpu.read_operand_address(AddressingMode::AbsoluteX);
    assert_eq!(address, 0x2100);
    assert_eq!(cpu.bus.cycles_count, before + 3);
    // base $2000 + x=1 stays in the page
    let mut cpu = boot(&[0x00, 0x20]);
    cpu.x = 1;
    let before = cpu.bus.cycles_count;
    let address = cpu.read_operand_address(AddressingMode::AbsoluteX);
    assert_eq!(address, 0x2001);
    assert_eq!(cpu.bus.cycles_count, before + 2);
    // a forced-clock variant pays the cycle without a crossing
    let mut cpu = boot(&[0x00, 0x20]);
    cpu.x = 1;
    let before = cpu.bus.cycles_count;
    let address = cpu.read_operand_address(AddressingMode::AbsoluteXForced);
    assert_eq!(address, 0x2001);
    assert_eq!(cpu.bus.cycles_count, before + 3);
}

#[test]
fn zero_page_indexing_wraps_within_the_zero_page() {
    let mut cpu = boot(&[0xff]);
    cpu.x = 2;
    let address = cpu.read_operand_address(AddressingMode::ZeroPageX);
    assert_eq!(address, 0x0001);
    let mut cpu = boot(&[0xff]);
    cpu.y = 3;
    let address = cpu.read_operand_address(AddressingMode::ZeroPageY);
    assert_eq!(address, 0x0002);
}

#[test]
fn zero_page_indexing_charges_the_dummy_read_cycle() {
    let mut cpu = boot(&[0x10]);
    let before = cpu.bus.cycles_count;
    cpu.read_operand_address(AddressingMode::ZeroPageX);
    assert_eq!(cpu.bus.cycles_count, before + 2);
}

#[test]
fn indexed_indirect_reads_through_the_zero_page_pointer() {
    // lda ($20,x) with x=4: pointer at $24 holds $0310
    let mut cpu = boot(&[0xa1, 0x20]);
    cpu.x = 4;
    cpu.bus.write_byte(0x0024, 0x10);
    cpu.bus.write_byte(0x0025, 0x03);
    cpu.bus.write_byte(0x0310, 0x5a);
    let before = cpu.bus.cycles_count;
    run(&mut cpu);
    assert_eq!(cpu.a, 0x5a);
    assert_eq!(cpu.bus.cycles_count, before + 6);
}

#[test]
fn indirect_indexed_adds_y_after_the_pointer() {
    // lda ($20),y with y=5: pointer at $20 holds $0310, so operand at $0315
    let mut cpu = boot(&[0xb1, 0x20]);
    cpu.y = 5;
    cpu.bus.write_byte(0x0020, 0x10);
    cpu.bus.write_byte(0x0021, 0x03);
    cpu.bus.write_byte(0x0315, 0xa5);
    let before = cpu.bus.cycles_count;
    run(&mut cpu);
    assert_eq!(cpu.a, 0xa5);
    assert_eq!(cpu.bus.cycles_count, before + 5);
}

#[test]
fn instruction_cycle_counts_follow_the_access_model() {
    // lda $0010 (absolute): opcode + two operand bytes + data = 4 cycles
    let mut cpu = boot(&[0xad, 0x10, 0x00]);
    let before = cpu.bus.cycles_count;
    run(&mut cpu);
    assert_eq!(cpu.bus.cycles_count, before + 4);
    // sta $2000,x (forced): opcode + two operand bytes + forced + write = 5
    let mut cpu = boot(&[0x9d, 0x00, 0x20]);
    let before = cpu.bus.cycles_count;
    run(&mut cpu);
    assert_eq!(cpu.bus.cycles_count, before + 5);
    // lda #$01 (immediate): opcode + operand = 2
    let mut cpu = boot(&[0xa9, 0x01]);
    let before = cpu.bus.cycles_count;
    run(&mut cpu);
    assert_eq!(cpu.bus.cycles_count, before + 2);
}

#[test]
fn dispatch_table_has_the_documented_entries() {
    let cpu = CPU::new();
    let info = cpu.get_instruction_info(0xa9).unwrap();
    assert!(matches!(info.op, nes_core::dispatch::Op::Lda));
    assert!(matches!(info.mode, AddressingMode::Immediate));
    assert_eq!(info.cycles, 2);
    let info = cpu.get_instruction_info(0x6c).unwrap();
    assert!(matches!(info.op, nes_core::dispatch::Op::Jmp));
    assert!(matches!(info.mode, AddressingMode::Indirect));
    assert_eq!(info.cycles, 5);
    assert!(cpu.get_instruction_info(0x02).is_none());
    // the documented instruction set has exactly 151 opcodes
    let mut supported = 0;
    for opcode in 0..=255u8 {
        if cpu.get_instruction_info(opcode).is_some() {
            supported += 1;
        }
    }
    assert_eq!(supported, 151);
}

#[test]
fn execution_is_deterministic() {
    let program = [0xa9, 0x07, 0x69, 0x09, 0x85, 0x10, 0xe6, 0x10, 0xa5, 0x10];
    let mut first = boot(&program);
    let mut second = boot(&program);
    for _ in 0..5 {
        run(&mut first);
        run(&mut second);
    }
    assert_eq!(first.a, second.a);
    assert_eq!(first.flags, second.flags);
    assert_eq!(first.pc, second.pc);
    assert_eq!(first.bus.cycles_count, second.bus.cycles_count);
    assert_eq!(first.a, 0x11);
}
