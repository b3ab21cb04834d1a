use rn3s::cpu::Cpu;

#[test]
fn test_lda_immediate() {
    let mut cpu = Cpu::new();
    cpu.setup(vec![0xa9, 0x7F]);
    cpu.run();
    assert_eq!(cpu.register_a, 0x7F);
    assert!(!cpu.status.zero);
    assert!(!cpu.status.negative);
}

#[test]
fn test_lda_immediate_zero() {
    let mut cpu = Cpu::new();
    cpu.setup(vec![0xa9, 0x00]);
    cpu.run();
    assert_eq!(cpu.register_a, 0x00);
    assert!(cpu.status.zero);
    assert!(!cpu.status.negative);
}

#[test]
fn test_lda_immediate_neg() {
    let mut cpu = Cpu::new();
    cpu.setup(vec![0xa9, 0xFF]);
    cpu.run();
    assert_eq!(cpu.register_a, 0xFF);
    assert!(!cpu.status.zero);
    assert!(cpu.status.negative);
}

#[test]
fn test_tax_a_to_x() {
    let mut cpu = Cpu::new();
    cpu.setup(vec![0xAA]);
    cpu.register_a = 0xFF;
    cpu.run();
    assert_eq!(cpu.register_x, 0xFF);
    assert!(!cpu.status.zero);
    assert!(cpu.status.negative);
}

#[test]
fn test_inx_x_to_nonzero() {
    let mut cpu = Cpu::new();
    cpu.setup(vec![0xE8]);
    cpu.register_x = 0x56;
    cpu.run();
    assert_eq!(cpu.register_x, 0x57);
    assert!(!cpu.status.zero);
    assert!(!cpu.status.negative);
}

#[test]
fn test_inx_x_to_negative() {
    let mut cpu = Cpu::new();
    cpu.setup(vec![0xE8]);
    cpu.register_x = 0x7F;
    cpu.run();
    assert_eq!(cpu.register_x, 0x80);
    assert!(!cpu.status.zero);
    assert!(cpu.status.negative);
}

#[test]
fn test_inx_x_to_zero() {
    let mut cpu = Cpu::new();
    cpu.setup(vec![0xE8]);
    cpu.register_x = 0xFF;
    cpu.run();
    assert_eq!(cpu.register_x, 0x0);
    assert!(cpu.status.zero);
    assert!(!cpu.status.negative);
}

#[test]
fn test_iny() {
    let mut cpu = Cpu::new();
    cpu.setup(vec![0xc8]);
    cpu.register_y = 0x50;
    cpu.run();
    assert_eq!(cpu.register_y, 0x1);
    assert!(!cpu.status.zero);
    assert!(!cpu.status.negative);
}

#[test]
fn test_lda_zeropage() {
    let mut cpu = Cpu::new();
    cpu.setup(vec![0xa5, 0x4]);
    cpu.memory[0x4] = 0x56;
    cpu.run();
    assert_eq!(cpu.register_a, 0x56);
}

#[test]
fn test_lda_zeropagex() {
    let mut cpu = Cpu::new();
    cpu.setup(vec![0xb5, 0x4]);
    cpu.register_x = 5;
    cpu.register_y = 6;
    cpu.memory[0x9] = 0x56;
    cpu.run();
    assert_eq!(cpu.register_a, 0x56);
}

#[test]
fn test_lda_absolute() {
    let mut cpu = Cpu::new();
    cpu.setup(vec![0xbd, 0x4, 0x5]);
    cpu.register_x = 5;
    cpu.register_y = 6;
    cpu.memory[0x0504 + 5] = 0x56;
    cpu.run();
    assert_eq!(cpu.register_a, 0x56);
}

#[test]
fn test_lda_absolutex() {
    let mut cpu = Cpu::new();
    cpu.setup(vec![0xbd, 0x4, 0x5]);
    cpu.register_x = 5;
    cpu.register_y = 6;
    cpu.memory[0x0504 + 5] = 0x56;
    cpu.run();
    assert_eq!(cpu.register_a, 0x56);
}

#[test]
fn test_lda_absolutey() {
    let mut cpu = Cpu::new();
    cpu.setup(vec![0xb9, 0x4, 0x5]);
    cpu.register_x = 5;
    cpu.register_y = 6;
    cpu.memory[0x0504 + 6] = 0x56;
    cpu.run();
    assert_eq!(cpu.register_a, 0x56);
}

#[test]
fn test_lda_indirectx() {
    let mut cpu = Cpu::new();
    cpu.setup(vec![0xa1, 0x4]);
    cpu.register_x = 5;
    cpu.register_y = 8;
    cpu.memory[9] = 0x23;
    cpu.memory[10] = 0x24;
    cpu.memory[0x2423] = 0x56;
    cpu.run();
    assert_eq!(cpu.register_a, 0x56);
}

#[test]
fn test_lda_indirecty() {
    let mut cpu = Cpu::new();
    cpu.setup(vec![0xb1, 0x4]);
    cpu.register_x = 5;
    cpu.register_y = 8;
    cpu.memory[4] = 0x23;
    cpu.memory[5] = 0x24;
    cpu.memory[0x2423 + 8] = 0x56;
    cpu.run();
    assert_eq!(cpu.register_a, 0x56);
}

#[test]
fn test_inc_zeropagex() {
    let mut cpu = Cpu::new();
    cpu.setup(vec![0xf6, 0xFF]);
    cpu.register_x = 5;
    cpu.register_y = 8;
    cpu.memory[4] = 0x7f;
    cpu.run();
    assert_eq!(cpu.memory[4], 0x80);
    assert!(!cpu.status.zero);
    assert!(cpu.status.negative);
}

#[test]
fn test_adc_set_carry() {
    let mut cpu = Cpu::new();
    cpu.setup(vec![0x69, 0xa0]);
    cpu.register_a = 0xc0;
    cpu.register_x = 5;
    cpu.register_y = 8;
    cpu.run();
    assert_eq!(cpu.register_a, 0x60);
    assert!(!cpu.status.zero);
    assert!(!cpu.status.negative);
    assert!(cpu.status.carry);
    assert!(cpu.status.overflow);
}

#[test]
fn test_adc_overflow_with_carry() {
    let mut cpu = Cpu::new();
    cpu.setup(vec![0x69, 0x50]);
    cpu.register_a = 0x30;
    cpu.register_x = 5;
    cpu.register_y = 8;
    cpu.status.carry = true;
    cpu.run();
    assert_eq!(cpu.register_a, 0x81); // 80 + 48 + 1 = negative number
    assert!(!cpu.status.zero);
    assert!(cpu.status.negative);
    assert!(!cpu.status.carry);
    assert!(cpu.status.overflow);
}

#[test]
fn test_and_immediate() {
    let mut cpu = Cpu::new();
    cpu.setup(vec![0x29, 0xaa]);
    cpu.register_a = 0xf0;
    cpu.run();
    assert_eq!(cpu.register_a, 0xa0);
    assert!(!cpu.status.zero);
    assert!(cpu.status.negative);
}

#[test]
fn test_asl_acc() {
    let mut cpu = Cpu::new();
    cpu.setup(vec![0x0a]);
    cpu.register_a = 0xAA;
    cpu.run();
    assert_eq!(cpu.register_a, 0x54);
    assert!(!cpu.status.zero);
    assert!(!cpu.status.negative);
    assert!(cpu.status.carry);
}

#[test]
fn test_asl_absolute() {
    let mut cpu = Cpu::new();
    cpu.setup(vec![0x0e, 0xaa, 0x55]);
    cpu.memory[0x55aa] = 0x55;
    cpu.run();
    assert_eq!(cpu.memory[0x55aa], 0xaa);
    assert!(!cpu.status.zero);
    assert!(cpu.status.negative);
    assert!(!cpu.status.carry);
}

#[test]
fn test_bcc_carry_clear_positive() {
    let mut cpu = Cpu::new();
    cpu.setup(vec![0x90, 0x15]);
    cpu.run();
    // Address of next instruction (2) + jump offset (0x15) + 1 (BRK instruction)
    assert_eq!(cpu.program_counter, 0x8018);
}

#[test]
fn test_bcs_bcc_carry_clear_negative_jump() {
    let mut cpu = Cpu::new();
    cpu.setup(vec![0xB0, 0x15, 0x90, 0xFA]);
    cpu.run();
    // Address of next instruction (2) - jump offset (0x6) + 1 (BRK instruction)
    assert_eq!(cpu.program_counter, 0x7FFF);
}

#[test]
fn test_bcc_bcs_carry_set() {
    let mut cpu = Cpu::new();
    cpu.setup(vec![0x90, 0x15, 0xB0, 0x15]);
    cpu.status.carry = true;
    cpu.run();
    // Address of next instruction (4) + jump offset (0x15) + 1 (BRK instruction)
    assert_eq!(cpu.program_counter, 0x801a);
}

#[test]
fn test_beq_bne_zero_clear() {
    let mut cpu = Cpu::new();
    cpu.setup(vec![0xF0, 0x15, 0xD0, 0xFA]);
    cpu.run();
    // Address of next instruction (2) - jump offset (0x6) + 1 (BRK instruction)
    assert_eq!(cpu.program_counter, 0x7FFF);
}

#[test]
fn test_bne_beq_zero_set() {
    let mut cpu = Cpu::new();
    cpu.setup(vec![0xD0, 0x15, 0xF0, 0x15]);
    cpu.status.zero = true;
    cpu.run();
    // Address of next instruction (4) + jump offset (0x15) + 1 (BRK instruction)
    assert_eq!(cpu.program_counter, 0x801a);
}

#[test]
fn test_bit_nonzero() {
    let mut cpu = Cpu::new();
    cpu.setup(vec![0x24, 0x00]);
    cpu.memory[0] = 0xFF;
    cpu.register_a = 0xC0;
    cpu.run();
    assert!(!cpu.status.zero);
    assert!(cpu.status.negative);
    assert!(cpu.status.overflow);
}

#[test]
fn test_bit_zero() {
    let mut cpu = Cpu::new();
    cpu.setup(vec![0x24, 0x00]);
    cpu.memory[0] = 0xF0;
    cpu.register_a = 0x0F;
    cpu.run();
    assert!(cpu.status.zero);
    assert!(!cpu.status.negative);
    assert!(!cpu.status.overflow);
}

#[test]
fn test_bmi_bpl_negative_clear() {
    let mut cpu = Cpu::new();
    cpu.setup(vec![0x30, 0x15, 0x10, 0xFA]);
    cpu.run();
    // Address of next instruction (2) - jump offset (0x6) + 1 (BRK instruction)
    assert_eq!(cpu.program_counter, 0x7FFF);
}

#[test]
fn test_bpl_bmi_negative_set() {
    let mut cpu = Cpu::new();
    cpu.setup(vec![0x10, 0x15, 0x30, 0x15]);
    cpu.status.negative = true;
    cpu.run();
    // Address of next instruction (4) + jump offset (0x15) + 1 (BRK instruction)
    assert_eq!(cpu.program_counter, 0x801a);
}

#[test]
fn test_bvs_bvc_overflow_clear() {
    let mut cpu = Cpu::new();
    cpu.setup(vec![0x70, 0x15, 0x50, 0xFA]);
    cpu.run();
    // Address of next instruction (2) - jump offset (0x6) + 1 (BRK instruction)
    assert_eq!(cpu.program_counter, 0x7FFF);
}

#[test]
fn test_bvc_bvs_overflow_set() {
    let mut cpu = Cpu::new();
    cpu.setup(vec![0x50, 0x15, 0x70, 0x15]);
    cpu.status.overflow = true;
    cpu.run();
    // Address of next instruction (4) + jump offset (0x15) + 1 (BRK instruction)
    assert_eq!(cpu.program_counter, 0x801a);
}

#[test]
fn test_clc() {
    let mut cpu = Cpu::new();
    cpu.setup(vec![0x18]);
    cpu.status.carry = true;
    cpu.run();
    assert!(!cpu.status.carry);
}

#[test]
fn test_cld() {
    let mut cpu = Cpu::new();
    cpu.setup(vec![0xd8]);
    cpu.status.decimal = true;
    cpu.run();
    assert!(!cpu.status.decimal);
}

#[test]
fn test_cli() {
    let mut cpu = Cpu::new();
    cpu.setup(vec![0x58]);
    cpu.status.irq_disable = true;
    cpu.run();
    assert!(!cpu.status.irq_disable);
}

#[test]
fn test_clv() {
    let mut cpu = Cpu::new();
    cpu.setup(vec![0xb8]);
    cpu.status.overflow = true;
    cpu.run();
    assert!(!cpu.status.overflow);
}

#[test]
fn test_cmp_immediate_a_greater() {
    let mut cpu = Cpu::new();
    cpu.setup(vec![0xC9, 0x10]);
    cpu.register_a = 0x20;
    cpu.run();
    assert!(cpu.status.carry);
    assert!(!cpu.status.zero);
    assert!(!cpu.status.negative);
}

#[test]
fn test_cmp_immediate_equal() {
    let mut cpu = Cpu::new();
    cpu.setup(vec![0xC9, 0xc0]);
    cpu.register_a = 0xc0;
    cpu.run();
    assert!(cpu.status.carry);
    assert!(cpu.status.zero);
    assert!(!cpu.status.negative);
}

#[test]
fn test_cmp_immediate_a_less() {
    let mut cpu = Cpu::new();
    cpu.setup(vec![0xC9, 0x20]);
    cpu.register_a = 0x10;
    cpu.run();
    assert!(!cpu.status.carry);
    assert!(!cpu.status.zero);
    assert!(cpu.status.negative);
}

#[test]
fn test_cpx_immediate_x_greater() {
    let mut cpu = Cpu::new();
    cpu.setup(vec![0xe0, 0x10]);
    cpu.register_x = 0x20;
    cpu.run();
    assert!(cpu.status.carry);
    assert!(!cpu.status.zero);
    assert!(!cpu.status.negative);
}

#[test]
fn test_cpy_immediate_y_less() {
    let mut cpu = Cpu::new();
    cpu.setup(vec![0xC0, 0x20]);
    cpu.register_y = 0x10;
    cpu.run();
    assert!(!cpu.status.carry);
    assert!(!cpu.status.zero);
    assert!(cpu.status.negative);
}

#[test]
fn test_dec_zeropage() {
    let mut cpu = Cpu::new();
    cpu.setup(vec![0xc6, 0x50]);
    cpu.register_x = 5;
    cpu.register_y = 8;
    cpu.memory[0x50] = 0x01;
    cpu.run();
    assert_eq!(cpu.memory[0x50], 0x0);
    assert!(cpu.status.zero);
    assert!(!cpu.status.negative);
}

#[test]
fn test_dex_zeropage() {
    let mut cpu = Cpu::new();
    cpu.setup(vec![0xca]);
    cpu.register_x = 0x80;
    cpu.run();
    assert_eq!(cpu.register_x, 0x7F);
    assert!(!cpu.status.zero);
    assert!(!cpu.status.negative);
}

#[test]
fn test_dey_zeropage() {
    let mut cpu = Cpu::new();
    cpu.setup(vec![0x88]);
    cpu.register_y = 0x81;
    cpu.run();
    assert_eq!(cpu.register_y, 0x80);
    assert!(!cpu.status.zero);
    assert!(cpu.status.negative);
}

#[test]
fn test_eor_immediate_zero() {
    let mut cpu = Cpu::new();
    cpu.setup(vec![0x49, 0xaa]);
    cpu.register_a = 0xaa;
    cpu.run();
    assert_eq!(cpu.register_a, 0x00);
    assert!(cpu.status.zero);
    assert!(!cpu.status.negative);
}

#[test]
fn test_eor_immediate_nonzero() {
    let mut cpu = Cpu::new();
    cpu.setup(vec![0x49, 0xaa]);
    cpu.register_a = 0xa5;
    cpu.run();
    assert_eq!(cpu.register_a, 0x0F);
    assert!(!cpu.status.zero);
    assert!(!cpu.status.negative);
}

#[test]
fn test_jmp_absolute() {
    let mut cpu = Cpu::new();
    cpu.setup(vec![0x4c, 0x20, 0x43]);
    cpu.run();
    assert_eq!(cpu.program_counter, 0x4321);
}

#[test]
fn test_jmp_indirect() {
    let mut cpu = Cpu::new();
    cpu.setup(vec![0x6c, 0x21, 0x43]);
    cpu.memory[0x4321] = 0x33;
    cpu.memory[0x4322] = 0x12;
    cpu.run();
    assert_eq!(cpu.program_counter, 0x1234);
}

#[test]
fn test_jsr() {
    let mut cpu = Cpu::new();
    // First jump to some address
    cpu.setup(vec![0x4c, 0x20, 0x43]);
    // From there jump to subroutine
    cpu.stack_pointer = 0x8;
    cpu.memory[0x4320] = 0x20;
    cpu.memory[0x4321] = 0x04; // Jump target is BRK
    cpu.memory[0x4322] = 0x00;
    cpu.run();
    assert_eq!(cpu.program_counter, 0x0005); // one cycle added from BRK
    assert_eq!(cpu.stack_pointer, 0x6);
    assert_eq!(cpu.memory[0x108], 0x43);
    assert_eq!(cpu.memory[0x107], 0x22);
}

#[test]
fn test_ldx_zeropagey() {
    let mut cpu = Cpu::new();
    cpu.setup(vec![0xb6, 0x70]);
    cpu.register_y = 0xf;
    cpu.memory[0x7f] = 0x90;
    cpu.run();
    assert_eq!(cpu.register_x, 0x90);
    assert!(!cpu.status.zero);
    assert!(cpu.status.negative);
}

#[test]
fn test_ldy_immediate() {
    let mut cpu = Cpu::new();
    cpu.setup(vec![0xa0, 0x00]);
    cpu.register_y = 0xff;
    cpu.run();
    assert_eq!(cpu.register_y, 0x00);
    assert!(cpu.status.zero);
    assert!(!cpu.status.negative);
}

#[test]
fn test_lsr_to_zero() {
    let mut cpu = Cpu::new();
    cpu.setup(vec![0x4a]);
    cpu.register_a = 0x01;
    cpu.run();
    assert_eq!(cpu.register_a, 0x00);
    assert!(cpu.status.carry);
    assert!(cpu.status.zero);
    assert!(!cpu.status.negative);
}

#[test]
fn test_nop() {
    let mut cpu = Cpu::new();
    cpu.setup(vec![0xea, 0xea, 0xea]);
    cpu.run();
    assert_eq!(cpu.program_counter, 0x8004);
}

#[test]
fn test_ora_immediate() {
    let mut cpu = Cpu::new();
    cpu.setup(vec![0x09, 0xa2]);
    cpu.register_a = 0x55;
    cpu.run();
    assert_eq!(cpu.register_a, 0xf7);
    assert!(!cpu.status.zero);
    assert!(cpu.status.negative);
}

#[test]
fn test_pha() {
    let mut cpu = Cpu::new();
    cpu.setup(vec![0x48]);
    cpu.stack_pointer = 0xfc;
    cpu.register_a = 0x55;
    cpu.run();
    assert_eq!(cpu.memory[0x01fc], 0x55);
    assert_eq!(cpu.stack_pointer, 0xfb);
}

#[test]
fn test_php() {
    let mut cpu = Cpu::new();
    cpu.setup(vec![0x08]);
    cpu.stack_pointer = 0x00;
    cpu.status.carry = true;
    cpu.status.negative = true;
    cpu.run();
    assert_eq!(cpu.memory[0x0100], 0x81);
    assert_eq!(cpu.stack_pointer, 0xff);
}

#[test]
fn test_pla() {
    let mut cpu = Cpu::new();
    cpu.setup(vec![0x68]);
    cpu.stack_pointer = 0xfc;
    cpu.memory[0x01fd] = 0x55;
    cpu.run();
    assert_eq!(cpu.register_a, 0x55);
    assert_eq!(cpu.stack_pointer, 0xfd);
}

#[test]
fn test_plp() {
    let mut cpu = Cpu::new();
    cpu.setup(vec![0x28]);
    cpu.stack_pointer = 0xff;
    cpu.memory[0x0100] = 0x81;
    cpu.run();
    assert!(cpu.status.carry);
    assert!(cpu.status.negative);
    assert_eq!(cpu.stack_pointer, 0x00);
}

#[test]
fn test_rol_a_carry_in() {
    let mut cpu = Cpu::new();
    cpu.setup(vec![0x2a]);
    cpu.register_a = 0x42;
    cpu.status.carry = true;
    cpu.run();
    assert!(!cpu.status.carry);
    assert!(cpu.status.negative);
    assert_eq!(cpu.register_a, 0x85);
}

#[test]
fn test_rol_zeropage_carry_out() {
    let mut cpu = Cpu::new();
    cpu.setup(vec![0x26, 0x01]);
    cpu.memory[0x0001] = 0x87;
    cpu.run();
    assert!(cpu.status.carry);
    assert!(!cpu.status.negative);
    assert_eq!(cpu.memory[0x0001], 0x0E);
}

#[test]
fn test_ror_a_carry_in() {
    let mut cpu = Cpu::new();
    cpu.setup(vec![0x6a]);
    cpu.register_a = 0x42;
    cpu.status.carry = true;
    cpu.run();
    assert!(!cpu.status.carry);
    assert!(cpu.status.negative);
    assert_eq!(cpu.register_a, 0xa1);
}

#[test]
fn test_ror_zeropage_carry_out() {
    let mut cpu = Cpu::new();
    cpu.setup(vec![0x66, 0x01]);
    cpu.memory[0x0001] = 0x87;
    cpu.run();
    assert!(cpu.status.carry);
    assert!(!cpu.status.negative);
    assert_eq!(cpu.memory[0x0001], 0x43);
}

#[test]
fn test_rti() {
    let mut cpu = Cpu::new();
    cpu.setup(vec![0x40]);
    cpu.stack_pointer = 0x5;
    cpu.memory[0x0106] = 0x81;
    cpu.memory[0x0107] = 0x20;
    cpu.memory[0x0108] = 0x43;
    cpu.run();
    assert!(cpu.status.carry);
    assert!(cpu.status.negative);
    assert_eq!(cpu.stack_pointer, 0x08);
    assert_eq!(cpu.program_counter, 0x4322);
}

#[test]
fn test_rts() {
    let mut cpu = Cpu::new();
    cpu.setup(vec![0x60]);
    cpu.stack_pointer = 0xfe;
    cpu.memory[0x01ff] = 0x20;
    cpu.memory[0x0100] = 0x43;
    cpu.run();
    assert_eq!(cpu.stack_pointer, 0x00);
    assert_eq!(cpu.program_counter, 0x4322);
}

#[test]
fn test_sbc_keep_carry() {
    let mut cpu = Cpu::new();
    cpu.setup(vec![0xe9, 0x10]);
    cpu.register_a = 0x31;
    cpu.status.carry = true;
    cpu.run();
    assert_eq!(cpu.register_a, 0x21);
    assert!(cpu.status.carry); // no overflow so carry should stay
    assert!(!cpu.status.negative);
    assert!(!cpu.status.overflow);
    assert!(!cpu.status.zero);
}

#[test]
fn test_sbc_no_carry_to_zero() {
    let mut cpu = Cpu::new();
    cpu.setup(vec![0xe9, 0x30]);
    cpu.register_a = 0x31;
    cpu.run();
    assert_eq!(cpu.register_a, 0x00);
    assert!(cpu.status.carry);
    assert!(!cpu.status.negative);
    assert!(!cpu.status.overflow);
    assert!(cpu.status.zero);
}

#[test]
fn test_sbc_consume_carry() {
    let mut cpu = Cpu::new();
    cpu.setup(vec![0xe9, 0x40]);
    cpu.register_a = 0x30;
    cpu.status.carry = true;
    cpu.run();
    assert_eq!(cpu.register_a, 0xf0);
    assert!(!cpu.status.carry); // carry should be consumed
    assert!(cpu.status.negative);
    assert!(!cpu.status.overflow);
    assert!(!cpu.status.zero);
}

#[test]
fn test_sbc_overflow() {
    let mut cpu = Cpu::new();
    cpu.setup(vec![0xe9, 0x10]);
    cpu.register_a = 0x88; // -120
    cpu.status.carry = true;
    cpu.run();
    assert_eq!(cpu.register_a, 0x78); // -120-16 turns into +120
    assert!(cpu.status.carry); // does not consume carry
    assert!(!cpu.status.negative);
    assert!(cpu.status.overflow);
    assert!(!cpu.status.zero);
}

#[test]
fn test_sec() {
    let mut cpu = Cpu::new();
    cpu.setup(vec![0x38]);
    cpu.run();
    assert!(cpu.status.carry);
}

#[test]
fn test_sed() {
    let mut cpu = Cpu::new();
    cpu.setup(vec![0xf8]);
    cpu.status.decimal = true;
    cpu.run();
    assert!(cpu.status.decimal);
}

#[test]
fn test_sei() {
    let mut cpu = Cpu::new();
    cpu.setup(vec![0x78]);
    cpu.run();
    assert!(cpu.status.irq_disable);
}

#[test]
fn test_sta() {
    let mut cpu = Cpu::new();
    cpu.setup(vec![0x85, 0x01]);
    cpu.register_a = 0x78;
    cpu.run();
    assert_eq!(cpu.memory[0x01], 0x78);
}

#[test]
fn test_stx() {
    let mut cpu = Cpu::new();
    cpu.setup(vec![0x86, 0x01]);
    cpu.register_x = 0x78;
    cpu.run();
    assert_eq!(cpu.memory[0x01], 0x78);
}

#[test]
fn test_sty() {
    let mut cpu = Cpu::new();
    cpu.setup(vec![0x84, 0x01]);
    cpu.register_y = 0x78;
    cpu.run();
    assert_eq!(cpu.memory[0x01], 0x78);
}

#[test]
fn test_tay() {
    let mut cpu = Cpu::new();
    cpu.setup(vec![0xa8]);
    cpu.register_a = 0;
    cpu.register_y = 0x78;
    cpu.run();
    assert_eq!(cpu.register_y, 0x00);
    assert!(!cpu.status.negative);
    assert!(cpu.status.zero);
}

#[test]
fn test_tsx() {
    let mut cpu = Cpu::new();
    cpu.setup(vec![0xba]);
    cpu.stack_pointer = 0xa5;
    cpu.run();
    assert_eq!(cpu.register_x, 0xa5);
    assert!(cpu.status.negative);
    assert!(!cpu.status.zero);
}

#[test]
fn test_txa() {
    let mut cpu = Cpu::new();
    cpu.setup(vec![0x8a]);
    cpu.register_x = 0xa5;
    cpu.run();
    assert_eq!(cpu.register_a, 0xa5);
    assert!(cpu.status.negative);
    assert!(!cpu.status.zero);
}

#[test]
fn test_txs() {
    let mut cpu = Cpu::new();
    cpu.setup(vec![0x9a]);
    cpu.register_x = 0x55;
    cpu.status.zero = true;
    cpu.status.negative = true;
    cpu.run();
    assert_eq!(cpu.stack_pointer, 0x55);
    assert!(cpu.status.negative); // does not affect flags
    assert!(cpu.status.zero);
}

#[test]
fn test_tya() {
    let mut cpu = Cpu::new();
    cpu.setup(vec![0x98]);
    cpu.register_y = 0xa5;
    cpu.run();
    assert_eq!(cpu.register_a, 0xa5);
    assert!(cpu.status.negative);
    assert!(!cpu.status.zero);
}
