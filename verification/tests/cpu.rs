use nes_rs::memory::MemoryMap;
use nes_rs::CPU;

#[test]
fn test_0xa9_lda_immediate_load_data() {
    let mut cpu = CPU::new();
    cpu.load(0, &[0xA9, 0x05, 0x00]);
    cpu.run().unwrap();

    assert_eq!(cpu.reg.a, 0x05);
    assert!(cpu.reg.p & 0b0000_0010 == 0b00);
    assert!(cpu.reg.p & 0b1000_0000 == 0);
}

#[test]
fn test_0xa9_lda_zero_flag() {
    let mut cpu = CPU::new();
    cpu.load(0, &[0xA9, 0x00, 0x00]);
    cpu.run().unwrap();

    assert!(cpu.reg.p & 0b0000_0010 == 0b10);
}

#[test]
fn test_0xaa_tax_move_a_to_x() {
    let mut cpu = CPU::new();
    cpu.load(0, &[0xAA, 0x00]);
    cpu.reg.a = 10;
    cpu.run().unwrap();

    assert_eq!(cpu.reg.x, 10);
}

#[test]
fn test_load_transfer_increment() {
    let mut cpu = CPU::new();
    cpu.load(0, &[0xA9, 0xC0, 0xAA, 0xE8, 0x00]);
    cpu.run().unwrap();

    assert_eq!(cpu.reg.x, 0xC1);
}

#[test]
fn test_inx_overflow() {
    let mut cpu = CPU::new();
    cpu.load(0, &[0xE8, 0xE8, 0x00]);
    cpu.reg.x = 0xFF;
    cpu.run().unwrap();

    assert_eq!(cpu.reg.x, 0x01);
}

#[test]
fn test_program_load() {
    let mut cpu = CPU::new();
    cpu.load_program(&[0xA9, 0xC0, 0xAA, 0xE8, 0x00]);
    cpu.interrupt_reset();
    cpu.run().unwrap();

    assert_eq!(cpu.reg.x, 0xC1);
}

#[test]
fn test_add_no_carry() {
    let mut cpu = CPU::new();
    cpu.load_program(&[
        0xA9, // load acc immediate
        0x10, // 16
        0x69, // add acc immediate
        0x13, // 19
        0x00,
    ]);
    cpu.interrupt_reset();
    cpu.run().unwrap();
    // assert 16 + 19 = 35
    assert_eq!(cpu.reg.a, 0x23);
}

#[test]
fn test_add_with_carry() {
    let mut cpu = CPU::new();
    // Set C = 1
    // 1 + 1 + C = 3
    cpu.load_program(&[0x38, 0xA9, 0x01, 0x69, 0x01, 0x00]);
    cpu.interrupt_reset();
    cpu.run().unwrap();
    assert_eq!(cpu.reg.a, 0x03);
}

#[test]
fn test_set_carry() {
    let mut cpu = CPU::new();
    //  1 + 1 = 2, returns C = 0
    cpu.load_program(&[0xA9, 0x01, 0x69, 0x01, 0x00]);
    cpu.interrupt_reset();
    cpu.run().unwrap();
    assert_eq!(cpu.reg.get_carry(), false);

    //  1 + -1 = 0, returns C = 1
    cpu.load_program(&[0xA9, 0x01, 0x69, 0xFF, 0x00]);
    cpu.interrupt_reset();
    cpu.run().unwrap();
    assert_eq!(cpu.reg.get_carry(), true);

    //  127 + 1 = 128, returns C = 0
    cpu.load_program(&[0xA9, 0x7F, 0x69, 0x01, 0x00]);
    cpu.interrupt_reset();
    cpu.run().unwrap();
    assert_eq!(cpu.reg.get_carry(), false);

    //  -128 + -1 = -129, returns C = 1
    cpu.load_program(&[0xA9, 0x80, 0x69, 0xFF, 0x00]);
    cpu.interrupt_reset();
    cpu.run().unwrap();
    assert_eq!(cpu.reg.get_carry(), true);
}

#[test]
fn test_set_overflow() {
    let mut cpu = CPU::new();
    //  1 + 1 = 2, returns V = 0
    cpu.load_program(&[0xA9, 0x01, 0x69, 0x01, 0x00]);
    cpu.interrupt_reset();
    cpu.run().unwrap();
    assert_eq!(cpu.reg.get_overflow(), false);

    //  1 + -1 = 0, returns V = 0
    cpu.load_program(&[0xA9, 0x01, 0x69, 0xFF, 0x00]);
    cpu.interrupt_reset();
    cpu.run().unwrap();
    assert_eq!(cpu.reg.get_overflow(), false);

    //  127 + 1 = 128, returns V = 1
    cpu.load_program(&[0xA9, 0x7F, 0x69, 0x01, 0x00]);
    cpu.interrupt_reset();
    cpu.run().unwrap();
    assert_eq!(cpu.reg.get_overflow(), true);

    // -128 + -1 = -129, returns V = 1
    cpu.load_program(&[0xA9, 0x80, 0x69, 0xFF, 0x00]);
    cpu.interrupt_reset();
    cpu.run().unwrap();
    assert_eq!(cpu.reg.get_overflow(), true);

    // carry clear: 0 - 1 - 1 = -2, returns V = 0
    cpu.load_program(&[0xA9, 0x00, 0xE9, 0x01, 0x00]);
    cpu.interrupt_reset();
    cpu.run().unwrap();
    assert_eq!(cpu.reg.get_overflow(), false);

    // carry clear: -128 - 1 - 1 = -130, returns V = 1
    cpu.load_program(&[0xA9, 0x80, 0xE9, 0x01, 0x00]);
    cpu.interrupt_reset();
    cpu.run().unwrap();
    assert_eq!(cpu.reg.get_overflow(), true);

    // carry clear: 127 - -1 - 1 = 127, returns V = 0
    cpu.load_program(&[0xA9, 0x7F, 0xE9, 0xFF, 0x00]);
    cpu.interrupt_reset();
    cpu.run().unwrap();
    assert_eq!(cpu.reg.get_overflow(), false);
}

#[test]
fn test_update_zn() {
    let mut cpu = CPU::new();
    cpu.interrupt_reset();
    cpu.reg.a = 0;
    cpu.update_zn_from_accumulator();
    assert_eq!(cpu.reg.get_zero(), true);
    assert_eq!(cpu.reg.get_negative(), false);

    cpu.interrupt_reset();
    cpu.reg.a = -1_i8 as u8;
    cpu.update_zn_from_accumulator();
    assert_eq!(cpu.reg.get_zero(), false);
    assert_eq!(cpu.reg.get_negative(), true);

    cpu.interrupt_reset();
    cpu.reg.a = 1;
    cpu.update_zn_from_accumulator();
    assert_eq!(cpu.reg.get_zero(), false);
    assert_eq!(cpu.reg.get_negative(), false);

    cpu.interrupt_reset();
    cpu.update_zn_from_value(0);
    assert_eq!(cpu.reg.get_zero(), true);
    assert_eq!(cpu.reg.get_negative(), false);

    cpu.interrupt_reset();
    cpu.update_zn_from_value(-1_i8 as u8);
    assert_eq!(cpu.reg.get_zero(), false);
    assert_eq!(cpu.reg.get_negative(), true);

    cpu.interrupt_reset();
    cpu.update_zn_from_value(1);
    assert_eq!(cpu.reg.get_zero(), false);
    assert_eq!(cpu.reg.get_negative(), false);
}

#[test]
fn test_get_address() {
    let mut cpu = CPU::new();
    let address = 0x1F1F;
    cpu.load(address, &[0x10, 0x20]);
    // little endian so 0x1F1F should represent 0x10 as a u8 and 0x2010 as a u16
    assert_eq!(cpu.mem.read_u8(address), 0x10u8);
    assert_eq!(cpu.mem.read_u16(address), 0x2010u16);
}

#[test]
fn test_arithmetic_shift() {
    let mut cpu = CPU::new();
    let pre_shifted_value = 0b1001_0100;
    let expected_value = 0b0010_1000;
    cpu.load_program(&[0xA9, pre_shifted_value, 0x0A, 0x00]);
    cpu.interrupt_reset();
    cpu.run().unwrap();
    assert_eq!(cpu.reg.a, expected_value);
    assert_eq!(cpu.reg.get_carry(), true);

    let mut cpu = CPU::new();
    let pre_shifted_value = 0b0011_0111;
    let expected_value = 0b0110_1110;
    cpu.load_program(&[0xA9, pre_shifted_value, 0x0A, 0x00]);
    cpu.interrupt_reset();
    cpu.run().unwrap();
    assert_eq!(cpu.reg.a, expected_value);
    assert_eq!(cpu.reg.get_carry(), false);
}

#[test]
fn test_logical_shift() {
    let mut cpu = CPU::new();
    let pre_shifted_value = 0b1001_0100;
    let expected_value = 0b0100_1010;
    cpu.load_program(&[0xA9, pre_shifted_value, 0x4A, 0x00]);
    cpu.interrupt_reset();
    cpu.run().unwrap();
    assert_eq!(cpu.reg.a, expected_value);
    assert_eq!(cpu.reg.get_carry(), false);

    let mut cpu = CPU::new();
    let pre_shifted_value = 0b0011_0111;
    let expected_value = 0b0001_1011;
    cpu.load_program(&[0xA9, pre_shifted_value, 0x4A, 0x00]);
    cpu.interrupt_reset();
    cpu.run().unwrap();
    assert_eq!(cpu.reg.a, expected_value);
    assert_eq!(cpu.reg.get_carry(), true);
}
