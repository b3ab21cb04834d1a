use rn3s::console::bus::Bus;
use rn3s::console::cartridge::mappers::Mirroring;
use rn3s::console::cartridge::{get_mapper, Cartridge};
use rn3s::console::cpu::Cpu;

fn dummy_cart() -> Cartridge {
    Cartridge {
        mapper: get_mapper(0, vec![0; 0x4000], vec![0; 0x2000], 0, Mirroring::Vertical).unwrap(),
    }
}

fn dummy_bus() -> Bus {
    Bus::new(dummy_cart())
}

#[test]
fn cpu_test_lda_immediate() {
    let bus = dummy_bus();
    let mut cpu = Cpu::new(bus);
    cpu._setup(&[0xa9, 0x7F]);
    cpu._run();
    assert_eq!(cpu.register_a, 0x7F);
    assert!(!cpu.status.zero);
    assert!(!cpu.status.negative);
}

#[test]
fn cpu_test_lda_immediate_zero() {
    let bus = dummy_bus();
    let mut cpu = Cpu::new(bus);
    cpu._setup(&[0xa9, 0x00]);
    cpu._run();
    assert_eq!(cpu.register_a, 0x00);
    assert!(cpu.status.zero);
    assert!(!cpu.status.negative);
}

#[test]
fn cpu_test_lda_immediate_neg() {
    let bus = dummy_bus();
    let mut cpu = Cpu::new(bus);
    cpu._setup(&[0xa9, 0xFF]);
    cpu._run();
    assert_eq!(cpu.register_a, 0xFF);
    assert!(!cpu.status.zero);
    assert!(cpu.status.negative);
}

#[test]
fn cpu_test_tax_a_to_x() {
    let bus = dummy_bus();
    let mut cpu = Cpu::new(bus);
    cpu._setup(&[0xAA]);
    cpu.register_a = 0xFF;
    cpu._run();
    assert_eq!(cpu.register_x, 0xFF);
    assert!(!cpu.status.zero);
    assert!(cpu.status.negative);
}

#[test]
fn cpu_test_inx_x_to_nonzero() {
    let bus = dummy_bus();
    let mut cpu = Cpu::new(bus);
    cpu._setup(&[0xE8]);
    cpu.register_x = 0x56;
    cpu._run();
    assert_eq!(cpu.register_x, 0x57);
    assert!(!cpu.status.zero);
    assert!(!cpu.status.negative);
}

#[test]
fn cpu_test_inx_x_to_negative() {
    let bus = dummy_bus();
    let mut cpu = Cpu::new(bus);
    cpu._setup(&[0xE8]);
    cpu.register_x = 0x7F;
    cpu._run();
    assert_eq!(cpu.register_x, 0x80);
    assert!(!cpu.status.zero);
    assert!(cpu.status.negative);
}

#[test]
fn cpu_test_inx_x_to_zero() {
    let bus = dummy_bus();
    let mut cpu = Cpu::new(bus);
    cpu._setup(&[0xE8]);
    cpu.register_x = 0xFF;
    cpu._run();
    assert_eq!(cpu.register_x, 0x0);
    assert!(cpu.status.zero);
    assert!(!cpu.status.negative);
}

#[test]
fn cpu_test_iny() {
    let bus = dummy_bus();
    let mut cpu = Cpu::new(bus);
    cpu._setup(&[0xc8]);
    cpu.register_y = 0x50;
    cpu._run();
    assert_eq!(cpu.register_y, 0x51);
    assert!(!cpu.status.zero);
    assert!(!cpu.status.negative);
}

#[test]
fn cpu_test_lda_zeropage() {
    let bus = dummy_bus();
    let mut cpu = Cpu::new(bus);
    cpu._setup(&[0xa5, 0x4]);
    cpu.bus.write(0x4, 0x56);
    cpu._run();
    assert_eq!(cpu.register_a, 0x56);
}

#[test]
fn cpu_test_lda_zeropagex() {
    let bus = dummy_bus();
    let mut cpu = Cpu::new(bus);
    cpu._setup(&[0xb5, 0x4]);
    cpu.register_x = 5;
    cpu.register_y = 6;
    cpu.bus.write(0x9, 0x56);
    cpu._run();
    assert_eq!(cpu.register_a, 0x56);
}

#[test]
fn cpu_test_lda_absolute() {
    let bus = dummy_bus();
    let mut cpu = Cpu::new(bus);
    cpu._setup(&[0xbd, 0x4, 0x5]);
    cpu.register_x = 5;
    cpu.register_y = 6;
    cpu.bus.write(0x0504 + 5, 0x56);
    cpu._run();
    assert_eq!(cpu.register_a, 0x56);
}

#[test]
fn cpu_test_lda_absolutex() {
    let bus = dummy_bus();
    let mut cpu = Cpu::new(bus);
    cpu._setup(&[0xbd, 0x4, 0x5]);
    cpu.register_x = 5;
    cpu.register_y = 6;
    cpu.bus.write(0x0504 + 5, 0x56);
    cpu._run();
    assert_eq!(cpu.register_a, 0x56);
}

#[test]
fn cpu_test_lda_absolutey() {
    let bus = dummy_bus();
    let mut cpu = Cpu::new(bus);
    cpu._setup(&[0xb9, 0x4, 0x5]);
    cpu.register_x = 5;
    cpu.register_y = 6;
    cpu.bus.write(0x0504 + 6, 0x56);
    cpu._run();
    assert_eq!(cpu.register_a, 0x56);
}

#[test]
fn cpu_test_lda_indirectx() {
    let bus = dummy_bus();
    let mut cpu = Cpu::new(bus);
    cpu._setup(&[0xa1, 0x4]);
    cpu.register_x = 5;
    cpu.register_y = 8;
    cpu.bus.write(9, 0x23);
    cpu.bus.write(10, 0x14);
    cpu.bus.write(0x1423, 0x56);
    cpu._run();
    assert_eq!(cpu.register_a, 0x56);
}

#[test]
fn cpu_test_lda_indirecty() {
    let bus = dummy_bus();
    let mut cpu = Cpu::new(bus);
    cpu._setup(&[0xb1, 0x4]);
    cpu.register_x = 5;
    cpu.register_y = 8;
    cpu.bus.write(4, 0x23);
    cpu.bus.write(5, 0x14);
    cpu.bus.write(0x1423 + 8, 0x56);
    cpu._run();
    assert_eq!(cpu.register_a, 0x56);
}

#[test]
fn cpu_test_inc_zeropagex() {
    let bus = dummy_bus();
    let mut cpu = Cpu::new(bus);
    cpu._setup(&[0xf6, 0xFF]);
    cpu.register_x = 5;
    cpu.register_y = 8;
    cpu.bus.write(4, 0x7f);
    cpu._run();
    assert_eq!(cpu.bus.read(4), 0x80);
    assert!(!cpu.status.zero);
    assert!(cpu.status.negative);
}

#[test]
fn cpu_test_adc_set_carry() {
    let bus = dummy_bus();
    let mut cpu = Cpu::new(bus);
    cpu._setup(&[0x69, 0xa0]);
    cpu.register_a = 0xc0;
    cpu.register_x = 5;
    cpu.register_y = 8;
    cpu._run();
    assert_eq!(cpu.register_a, 0x60);
    assert!(!cpu.status.zero);
    assert!(!cpu.status.negative);
    assert!(cpu.status.carry);
    assert!(cpu.status.overflow);
}

#[test]
fn cpu_test_adc_overflow_with_carry() {
    let bus = dummy_bus();
    let mut cpu = Cpu::new(bus);
    cpu._setup(&[0x69, 0x50]);
    cpu.register_a = 0x30;
    cpu.register_x = 5;
    cpu.register_y = 8;
    cpu.status.carry = true;
    cpu._run();
    assert_eq!(cpu.register_a, 0x81); // 80 + 48 + 1 = negative number
    assert!(!cpu.status.zero);
    assert!(cpu.status.negative);
    assert!(!cpu.status.carry);
    assert!(cpu.status.overflow);
}

#[test]
fn cpu_test_and_immediate() {
    let bus = dummy_bus();
    let mut cpu = Cpu::new(bus);
    cpu._setup(&[0x29, 0xaa]);
    cpu.register_a = 0xf0;
    cpu._run();
    assert_eq!(cpu.register_a, 0xa0);
    assert!(!cpu.status.zero);
    assert!(cpu.status.negative);
}

#[test]
fn cpu_test_asl_acc() {
    let bus = dummy_bus();
    let mut cpu = Cpu::new(bus);
    cpu._setup(&[0x0a]);
    cpu.register_a = 0xAA;
    cpu._run();
    assert_eq!(cpu.register_a, 0x54);
    assert!(!cpu.status.zero);
    assert!(!cpu.status.negative);
    assert!(cpu.status.carry);
}

#[test]
fn cpu_test_asl_absolute() {
    let bus = dummy_bus();
    let mut cpu = Cpu::new(bus);
    cpu._setup(&[0x0e, 0xaa, 0x05]);
    cpu.bus.write(0x05aa, 0x55);
    cpu._run();
    assert_eq!(cpu.bus.read(0x05aa), 0xaa);
    assert!(!cpu.status.zero);
    assert!(cpu.status.negative);
    assert!(!cpu.status.carry);
}

#[test]
fn cpu_test_bcc_carry_clear_positive() {
    let bus = dummy_bus();
    let mut cpu = Cpu::new(bus);
    cpu._setup(&[0x90, 0x15]);
    cpu._run();
    // Address of next instruction (2) + jump offset (0x15) + 1 (BRK instruction)
    assert_eq!(cpu.program_counter, 0x618);
}

#[test]
fn cpu_test_bcs_bcc_carry_clear_negative_jump() {
    let bus = dummy_bus();
    let mut cpu = Cpu::new(bus);
    cpu._setup(&[0xB0, 0x15, 0x90, 0xFA]);
    cpu._run();
    // Address of next instruction (2) - jump offset (0x6) + 1 (BRK instruction)
    assert_eq!(cpu.program_counter, 0x5FF);
}

#[test]
fn cpu_test_bcc_bcs_carry_set() {
    let bus = dummy_bus();
    let mut cpu = Cpu::new(bus);
    cpu._setup(&[0x90, 0x15, 0xB0, 0x15]);
    cpu.status.carry = true;
    cpu._run();
    // Address of next instruction (4) + jump offset (0x15) + 1 (BRK instruction)
    assert_eq!(cpu.program_counter, 0x61a);
}

#[test]
fn cpu_test_beq_bne_zero_clear() {
    let bus = dummy_bus();
    let mut cpu = Cpu::new(bus);
    cpu._setup(&[0xF0, 0x15, 0xD0, 0xFA]);
    cpu._run();
    // Address of next instruction (2) - jump offset (0x6) + 1 (BRK instruction)
    assert_eq!(cpu.program_counter, 0x5FF);
}

#[test]
fn cpu_test_bne_beq_zero_set() {
    let bus = dummy_bus();
    let mut cpu = Cpu::new(bus);
    cpu._setup(&[0xD0, 0x15, 0xF0, 0x15]);
    cpu.status.zero = true;
    cpu._run();
    // Address of next instruction (4) + jump offset (0x15) + 1 (BRK instruction)
    assert_eq!(cpu.program_counter, 0x61a);
}

#[test]
fn cpu_test_bit_nonzero() {
    let bus = dummy_bus();
    let mut cpu = Cpu::new(bus);
    cpu._setup(&[0x24, 0x00]);
    cpu.bus.write(0, 0xFF);
    cpu.register_a = 0xC0;
    cpu._run();
    assert!(!cpu.status.zero);
    assert!(cpu.status.negative);
    assert!(cpu.status.overflow);
}

#[test]
fn cpu_test_bit_zero() {
    let bus = dummy_bus();
    let mut cpu = Cpu::new(bus);
    cpu._setup(&[0x24, 0x00]);
    cpu.bus.write(0, 0xF0);
    cpu.register_a = 0x0F;
    cpu._run();
    assert!(cpu.status.zero);
    assert!(cpu.status.negative);
    assert!(cpu.status.overflow);
}

#[test]
fn cpu_test_bmi_bpl_negative_clear() {
    let bus = dummy_bus();
    let mut cpu = Cpu::new(bus);
    cpu._setup(&[0x30, 0x15, 0x10, 0xFA]);
    cpu._run();
    // Address of next instruction (2) - jump offset (0x6) + 1 (BRK instruction)
    assert_eq!(cpu.program_counter, 0x5FF);
}

#[test]
fn cpu_test_bpl_bmi_negative_set() {
    let bus = dummy_bus();
    let mut cpu = Cpu::new(bus);
    cpu._setup(&[0x10, 0x15, 0x30, 0x15]);
    cpu.status.negative = true;
    cpu._run();
    // Address of next instruction (4) + jump offset (0x15) + 1 (BRK instruction)
    assert_eq!(cpu.program_counter, 0x61a);
}

#[test]
fn cpu_test_bvs_bvc_overflow_clear() {
    let bus = dummy_bus();
    let mut cpu = Cpu::new(bus);
    cpu._setup(&[0x70, 0x15, 0x50, 0xFA]);
    cpu._run();
    // Address of next instruction (2) - jump offset (0x6) + 1 (BRK instruction)
    assert_eq!(cpu.program_counter, 0x5FF);
}

#[test]
fn cpu_test_bvc_bvs_overflow_set() {
    let bus = dummy_bus();
    let mut cpu = Cpu::new(bus);
    cpu._setup(&[0x50, 0x15, 0x70, 0x15]);
    cpu.status.overflow = true;
    cpu._run();
    // Address of next instruction (4) + jump offset (0x15) + 1 (BRK instruction)
    assert_eq!(cpu.program_counter, 0x61a);
}

#[test]
fn cpu_test_clc() {
    let bus = dummy_bus();
    let mut cpu = Cpu::new(bus);
    cpu._setup(&[0x18]);
    cpu.status.carry = true;
    cpu._run();
    assert!(!cpu.status.carry);
}

#[test]
fn cpu_test_cld() {
    let bus = dummy_bus();
    let mut cpu = Cpu::new(bus);
    cpu._setup(&[0xd8]);
    cpu.status.decimal = true;
    cpu._run();
    assert!(!cpu.status.decimal);
}

#[test]
fn cpu_test_cli() {
    let bus = dummy_bus();
    let mut cpu = Cpu::new(bus);
    cpu._setup(&[0x58]);
    cpu.status.irq_disable = true;
    cpu._run();
    assert!(!cpu.status.irq_disable);
}

#[test]
fn cpu_test_clv() {
    let bus = dummy_bus();
    let mut cpu = Cpu::new(bus);
    cpu._setup(&[0xb8]);
    cpu.status.overflow = true;
    cpu._run();
    assert!(!cpu.status.overflow);
}

#[test]
fn cpu_test_cmp_immediate_a_greater() {
    let bus = dummy_bus();
    let mut cpu = Cpu::new(bus);
    cpu._setup(&[0xC9, 0x10]);
    cpu.register_a = 0x20;
    cpu._run();
    assert!(cpu.status.carry);
    assert!(!cpu.status.zero);
    assert!(!cpu.status.negative);
}

#[test]
fn cpu_test_cmp_immediate_equal() {
    let bus = dummy_bus();
    let mut cpu = Cpu::new(bus);
    cpu._setup(&[0xC9, 0xc0]);
    cpu.register_a = 0xc0;
    cpu._run();
    assert!(cpu.status.carry);
    assert!(cpu.status.zero);
    assert!(!cpu.status.negative);
}

#[test]
fn cpu_test_cmp_immediate_a_less() {
    let bus = dummy_bus();
    let mut cpu = Cpu::new(bus);
    cpu._setup(&[0xC9, 0x20]);
    cpu.register_a = 0x10;
    cpu._run();
    assert!(!cpu.status.carry);
    assert!(!cpu.status.zero);
    assert!(cpu.status.negative);
}

#[test]
fn cpu_test_cpx_immediate_x_greater() {
    let bus = dummy_bus();
    let mut cpu = Cpu::new(bus);
    cpu._setup(&[0xe0, 0x10]);
    cpu.register_x = 0x20;
    cpu._run();
    assert!(cpu.status.carry);
    assert!(!cpu.status.zero);
    assert!(!cpu.status.negative);
}

#[test]
fn cpu_test_cpy_immediate_y_less() {
    let bus = dummy_bus();
    let mut cpu = Cpu::new(bus);
    cpu._setup(&[0xC0, 0x20]);
    cpu.register_y = 0x10;
    cpu._run();
    assert!(!cpu.status.carry);
    assert!(!cpu.status.zero);
    assert!(cpu.status.negative);
}

#[test]
fn cpu_test_dec_zeropage() {
    let bus = dummy_bus();
    let mut cpu = Cpu::new(bus);
    cpu._setup(&[0xc6, 0x50]);
    cpu.register_x = 5;
    cpu.register_y = 8;
    cpu.bus.write(0x50, 0x01);
    cpu._run();
    assert_eq!(cpu.bus.read(0x50), 0x0);
    assert!(cpu.status.zero);
    assert!(!cpu.status.negative);
}

#[test]
fn cpu_test_dex_zeropage() {
    let bus = dummy_bus();
    let mut cpu = Cpu::new(bus);
    cpu._setup(&[0xca]);
    cpu.register_x = 0x80;
    cpu._run();
    assert_eq!(cpu.register_x, 0x7F);
    assert!(!cpu.status.zero);
    assert!(!cpu.status.negative);
}

#[test]
fn cpu_test_dey_zeropage() {
    let bus = dummy_bus();
    let mut cpu = Cpu::new(bus);
    cpu._setup(&[0x88]);
    cpu.register_y = 0x81;
    cpu._run();
    assert_eq!(cpu.register_y, 0x80);
    assert!(!cpu.status.zero);
    assert!(cpu.status.negative);
}

#[test]
fn cpu_test_eor_immediate_zero() {
    let bus = dummy_bus();
    let mut cpu = Cpu::new(bus);
    cpu._setup(&[0x49, 0xaa]);
    cpu.register_a = 0xaa;
    cpu._run();
    assert_eq!(cpu.register_a, 0x00);
    assert!(cpu.status.zero);
    assert!(!cpu.status.negative);
}

#[test]
fn cpu_test_eor_immediate_nonzero() {
    let bus = dummy_bus();
    let mut cpu = Cpu::new(bus);
    cpu._setup(&[0x49, 0xaa]);
    cpu.register_a = 0xa5;
    cpu._run();
    assert_eq!(cpu.register_a, 0x0F);
    assert!(!cpu.status.zero);
    assert!(!cpu.status.negative);
}

#[test]
fn cpu_test_jmp_absolute() {
    let bus = dummy_bus();
    let mut cpu = Cpu::new(bus);
    cpu._setup(&[0x4c, 0x23, 0x01]);
    cpu._run();
    assert_eq!(cpu.program_counter, 0x0124);
}

#[test]
fn cpu_test_jmp_indirect() {
    let bus = dummy_bus();
    let mut cpu = Cpu::new(bus);
    cpu._setup(&[0x6c, 0x23, 0x01]);
    cpu.bus.write(0x123, 0x44);
    cpu.bus.write(0x124, 0x02);
    cpu._run();
    assert_eq!(cpu.program_counter, 0x0245);
}

#[test]
fn cpu_test_jsr() {
    let bus = dummy_bus();
    let mut cpu = Cpu::new(bus);
    // First jump to some address
    cpu._setup(&[0x4c, 0x20, 0x04]);
    // From there jump to subroutine
    cpu.stack_pointer = 0x8;
    cpu.bus.write(0x0420, 0x20);
    cpu.bus.write(0x0421, 0x04); // Jump target is BRK
    cpu.bus.write(0x0422, 0x06);
    cpu._run();
    assert_eq!(cpu.program_counter, 0x0605); // one cycle added from BRK
    assert_eq!(cpu.stack_pointer, 0x6);
    assert_eq!(cpu.bus.read(0x108), 0x04);
    assert_eq!(cpu.bus.read(0x107), 0x22);
}

#[test]
fn cpu_test_ldx_zeropagey() {
    let bus = dummy_bus();
    let mut cpu = Cpu::new(bus);
    cpu._setup(&[0xb6, 0x70]);
    cpu.register_y = 0xf;
    cpu.bus.write(0x7f, 0x90);
    cpu._run();
    assert_eq!(cpu.register_x, 0x90);
    assert!(!cpu.status.zero);
    assert!(cpu.status.negative);
}

#[test]
fn cpu_test_ldy_immediate() {
    let bus = dummy_bus();
    let mut cpu = Cpu::new(bus);
    cpu._setup(&[0xa0, 0x00]);
    cpu.register_y = 0xff;
    cpu._run();
    assert_eq!(cpu.register_y, 0x00);
    assert!(cpu.status.zero);
    assert!(!cpu.status.negative);
}

#[test]
fn cpu_test_lsr_to_zero() {
    let bus = dummy_bus();
    let mut cpu = Cpu::new(bus);
    cpu._setup(&[0x4a]);
    cpu.register_a = 0x01;
    cpu._run();
    assert_eq!(cpu.register_a, 0x00);
    assert!(cpu.status.carry);
    assert!(cpu.status.zero);
    assert!(!cpu.status.negative);
}

#[test]
fn cpu_test_nop() {
    let bus = dummy_bus();
    let mut cpu = Cpu::new(bus);
    cpu._setup(&[0xea, 0xea, 0xea]);
    cpu._run();
    assert_eq!(cpu.program_counter, 0x604);
}

#[test]
fn cpu_test_ora_immediate() {
    let bus = dummy_bus();
    let mut cpu = Cpu::new(bus);
    cpu._setup(&[0x09, 0xa2]);
    cpu.register_a = 0x55;
    cpu._run();
    assert_eq!(cpu.register_a, 0xf7);
    assert!(!cpu.status.zero);
    assert!(cpu.status.negative);
}

#[test]
fn cpu_test_pha() {
    let bus = dummy_bus();
    let mut cpu = Cpu::new(bus);
    cpu._setup(&[0x48]);
    cpu.stack_pointer = 0xfc;
    cpu.register_a = 0x55;
    cpu._run();
    assert_eq!(cpu.bus.read(0x01fc), 0x55);
    assert_eq!(cpu.stack_pointer, 0xfb);
}

#[test]
fn cpu_test_php() {
    let bus = dummy_bus();
    let mut cpu = Cpu::new(bus);
    cpu._setup(&[0x08]);
    cpu.stack_pointer = 0x00;
    cpu.status.carry = true;
    cpu.status.negative = true;
    cpu._run();
    assert_eq!(cpu.bus.read(0x0100), 0xb5);
    assert_eq!(cpu.stack_pointer, 0xff);
}

#[test]
fn cpu_test_pla() {
    let bus = dummy_bus();
    let mut cpu = Cpu::new(bus);
    cpu._setup(&[0x68]);
    cpu.stack_pointer = 0xfc;
    cpu.bus.write(0x01fd, 0x55);
    cpu._run();
    assert_eq!(cpu.register_a, 0x55);
    assert_eq!(cpu.stack_pointer, 0xfd);
}

#[test]
fn cpu_test_plp() {
    let bus = dummy_bus();
    let mut cpu = Cpu::new(bus);
    cpu._setup(&[0x28]);
    cpu.stack_pointer = 0xff;
    cpu.bus.write(0x0100, 0x81);
    cpu._run();
    assert!(cpu.status.carry);
    assert!(cpu.status.negative);
    assert_eq!(cpu.stack_pointer, 0x00);
}

#[test]
fn cpu_test_rol_a_carry_in() {
    let bus = dummy_bus();
    let mut cpu = Cpu::new(bus);
    cpu._setup(&[0x2a]);
    cpu.register_a = 0x42;
    cpu.status.carry = true;
    cpu._run();
    assert!(!cpu.status.carry);
    assert!(cpu.status.negative);
    assert_eq!(cpu.register_a, 0x85);
}

#[test]
fn cpu_test_rol_zeropage_carry_out() {
    let bus = dummy_bus();
    let mut cpu = Cpu::new(bus);
    cpu._setup(&[0x26, 0x01]);
    cpu.bus.write(0x0001, 0x87);
    cpu._run();
    assert!(cpu.status.carry);
    assert!(!cpu.status.negative);
    assert_eq!(cpu.bus.read(0x0001), 0x0E);
}

#[test]
fn cpu_test_ror_a_carry_in() {
    let bus = dummy_bus();
    let mut cpu = Cpu::new(bus);
    cpu._setup(&[0x6a]);
    cpu.register_a = 0x42;
    cpu.status.carry = true;
    cpu._run();
    assert!(!cpu.status.carry);
    assert!(cpu.status.negative);
    assert_eq!(cpu.register_a, 0xa1);
}

#[test]
fn cpu_test_ror_zeropage_carry_out() {
    let bus = dummy_bus();
    let mut cpu = Cpu::new(bus);
    cpu._setup(&[0x66, 0x01]);
    cpu.bus.write(0x0001, 0x87);
    cpu._run();
    assert!(cpu.status.carry);
    assert!(!cpu.status.negative);
    assert_eq!(cpu.bus.read(0x0001), 0x43);
}

#[test]
fn cpu_test_rti() {
    let bus = dummy_bus();
    let mut cpu = Cpu::new(bus);
    cpu._setup(&[0x40]);
    cpu.stack_pointer = 0x5;
    cpu.bus.write(0x0106, 0x81);
    cpu.bus.write(0x0107, 0x20);
    cpu.bus.write(0x0108, 0x13);
    cpu._run();
    assert!(cpu.status.carry);
    assert!(cpu.status.negative);
    assert_eq!(cpu.stack_pointer, 0x8);
    assert_eq!(cpu.program_counter, 0x1321);
}

#[test]
fn cpu_test_rts() {
    let bus = dummy_bus();
    let mut cpu = Cpu::new(bus);
    cpu._setup(&[0x60]);
    cpu.stack_pointer = 0xfe;
    cpu.bus.write(0x01ff, 0x20);
    cpu.bus.write(0x0100, 0x0b);
    cpu._run();
    assert_eq!(cpu.stack_pointer, 0x00);
    assert_eq!(cpu.program_counter, 0x0b22);
}

#[test]
fn cpu_test_sbc_keep_carry() {
    let bus = dummy_bus();
    let mut cpu = Cpu::new(bus);
    cpu._setup(&[0xe9, 0x10]);
    cpu.register_a = 0x31;
    cpu.status.carry = true;
    cpu._run();
    assert_eq!(cpu.register_a, 0x21);
    assert!(cpu.status.carry); // no overflow so carry should stay
    assert!(!cpu.status.negative);
    assert!(!cpu.status.overflow);
    assert!(!cpu.status.zero);
}

#[test]
fn cpu_test_sbc_no_carry_to_zero() {
    let bus = dummy_bus();
    let mut cpu = Cpu::new(bus);
    cpu._setup(&[0xe9, 0x30]);
    cpu.register_a = 0x31;
    cpu._run();
    assert_eq!(cpu.register_a, 0x00);
    assert!(cpu.status.carry);
    assert!(!cpu.status.negative);
    assert!(!cpu.status.overflow);
    assert!(cpu.status.zero);
}

#[test]
fn cpu_test_sbc_consume_carry() {
    let bus = dummy_bus();
    let mut cpu = Cpu::new(bus);
    cpu._setup(&[0xe9, 0x40]);
    cpu.register_a = 0x30;
    cpu.status.carry = true;
    cpu._run();
    assert_eq!(cpu.register_a, 0xf0);
    assert!(!cpu.status.carry); // carry should be consumed
    assert!(cpu.status.negative);
    assert!(!cpu.status.overflow);
    assert!(!cpu.status.zero);
}

#[test]
fn cpu_test_sbc_overflow() {
    let bus = dummy_bus();
    let mut cpu = Cpu::new(bus);
    cpu._setup(&[0xe9, 0x10]);
    cpu.register_a = 0x88; // -120
    cpu.status.carry = true;
    cpu._run();
    assert_eq!(cpu.register_a, 0x78); // -120-16 turns into +120
    assert!(cpu.status.carry); // does not consume carry
    assert!(!cpu.status.negative);
    assert!(cpu.status.overflow);
    assert!(!cpu.status.zero);
}

#[test]
fn cpu_test_sec() {
    let bus = dummy_bus();
    let mut cpu = Cpu::new(bus);
    cpu._setup(&[0x38]);
    cpu._run();
    assert!(cpu.status.carry);
}

#[test]
fn cpu_test_sed() {
    let bus = dummy_bus();
    let mut cpu = Cpu::new(bus);
    cpu._setup(&[0xf8]);
    cpu.status.decimal = true;
    cpu._run();
    assert!(cpu.status.decimal);
}

#[test]
fn cpu_test_sei() {
    let bus = dummy_bus();
    let mut cpu = Cpu::new(bus);
    cpu._setup(&[0x78]);
    cpu._run();
    assert!(cpu.status.irq_disable);
}

#[test]
fn cpu_test_sta() {
    let bus = dummy_bus();
    let mut cpu = Cpu::new(bus);
    cpu._setup(&[0x85, 0x01]);
    cpu.register_a = 0x78;
    cpu._run();
    assert_eq!(cpu.bus.read(0x01), 0x78);
}

#[test]
fn cpu_test_stx() {
    let bus = dummy_bus();
    let mut cpu = Cpu::new(bus);
    cpu._setup(&[0x86, 0x01]);
    cpu.register_x = 0x78;
    cpu._run();
    assert_eq!(cpu.bus.read(0x01), 0x78);
}

#[test]
fn cpu_test_sty() {
    let bus = dummy_bus();
    let mut cpu = Cpu::new(bus);
    cpu._setup(&[0x84, 0x01]);
    cpu.register_y = 0x78;
    cpu._run();
    assert_eq!(cpu.bus.read(0x01), 0x78);
}

#[test]
fn cpu_test_tay() {
    let bus = dummy_bus();
    let mut cpu = Cpu::new(bus);
    cpu._setup(&[0xa8]);
    cpu.register_a = 0;
    cpu.register_y = 0x78;
    cpu._run();
    assert_eq!(cpu.register_y, 0x00);
    assert!(!cpu.status.negative);
    assert!(cpu.status.zero);
}

#[test]
fn cpu_test_tsx() {
    let bus = dummy_bus();
    let mut cpu = Cpu::new(bus);
    cpu._setup(&[0xba]);
    cpu.stack_pointer = 0xa5;
    cpu._run();
    assert_eq!(cpu.register_x, 0xa5);
    assert!(cpu.status.negative);
    assert!(!cpu.status.zero);
}

#[test]
fn cpu_test_txa() {
    let bus = dummy_bus();
    let mut cpu = Cpu::new(bus);
    cpu._setup(&[0x8a]);
    cpu.register_x = 0xa5;
    cpu._run();
    assert_eq!(cpu.register_a, 0xa5);
    assert!(cpu.status.negative);
    assert!(!cpu.status.zero);
}

#[test]
fn cpu_test_txs() {
    let bus = dummy_bus();
    let mut cpu = Cpu::new(bus);
    cpu._setup(&[0x9a]);
    cpu.register_x = 0x55;
    cpu.status.zero = true;
    cpu.status.negative = true;
    cpu._run();
    assert_eq!(cpu.stack_pointer, 0x55);
    assert!(cpu.status.negative); // does not affect flags
    assert!(cpu.status.zero);
}

#[test]
fn cpu_test_tya() {
    let bus = dummy_bus();
    let mut cpu = Cpu::new(bus);
    cpu._setup(&[0x98]);
    cpu.register_y = 0xa5;
    cpu._run();
    assert_eq!(cpu.register_a, 0xa5);
    assert!(cpu.status.negative);
    assert!(!cpu.status.zero);
}
