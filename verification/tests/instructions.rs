use nes_rs::cpu::ops::lookup;
use nes_rs::cpu::reg::RegisterSet;
use nes_rs::cpu::{relative_address, CPU};

const C: u8 = 0b0000_0001;
const Z: u8 = 0b0000_0010;
const I: u8 = 0b0000_0100;
const D: u8 = 0b0000_1000;
const V: u8 = 0b0100_0000;
const N: u8 = 0b1000_0000;

/// A CPU with `code` at 0x8000 and the program counter there.
fn at_8000(code: &[u8]) -> CPU {
    let mut cpu = CPU::new();
    cpu.load(0x8000, code);
    cpu.reg.pc = 0x8000;
    cpu
}

/// Executes the instruction under the program counter.
fn step(cpu: &mut CPU) {
    let code = cpu.read(cpu.reg.pc);
    cpu.step(code).unwrap();
}

#[test]
fn and_ora_eor() {
    let mut cpu = at_8000(&[0x29, 0x0F, 0x09, 0x80, 0x49, 0xFF, 0x29, 0x00]);
    cpu.reg.a = 0x3C;
    step(&mut cpu);
    assert_eq!((cpu.reg.a, cpu.reg.p, cpu.reg.pc), (0x0C, 0, 0x8002));
    step(&mut cpu);
    assert_eq!((cpu.reg.a, cpu.reg.p, cpu.reg.pc), (0x8C, N, 0x8004));
    step(&mut cpu);
    assert_eq!((cpu.reg.a, cpu.reg.p, cpu.reg.pc), (0x73, 0, 0x8006));
    step(&mut cpu);
    assert_eq!((cpu.reg.a, cpu.reg.p, cpu.reg.pc), (0x00, Z, 0x8008));
}

#[test]
fn shifts_of_the_accumulator() {
    // ASL A
    let mut cpu = at_8000(&[0x0A, 0x0A, 0x4A, 0x4A]);
    cpu.reg.a = 0xC0;
    step(&mut cpu);
    assert_eq!((cpu.reg.a, cpu.reg.p), (0x80, N | C));
    step(&mut cpu);
    assert_eq!((cpu.reg.a, cpu.reg.p), (0x00, Z | C));
    // LSR A
    cpu.reg.a = 0x03;
    step(&mut cpu);
    assert_eq!((cpu.reg.a, cpu.reg.p), (0x01, C));
    step(&mut cpu);
    assert_eq!((cpu.reg.a, cpu.reg.p), (0x00, Z | C));
    assert_eq!(cpu.reg.pc, 0x8004);
}

#[test]
fn shifts_of_memory_take_the_carry_from_the_operand() {
    // ASL $10 with an accumulator whose bit 7 is clear
    let mut cpu = at_8000(&[0x06, 0x10, 0x46, 0x11, 0x0E, 0x34, 0x12]);
    cpu.load(0x0010, &[0x81, 0x02]);
    cpu.load(0x1234, &[0x40]);
    cpu.reg.a = 0x00;
    step(&mut cpu);
    assert_eq!(cpu.read(0x0010), 0x02);
    assert_eq!((cpu.reg.a, cpu.reg.p, cpu.reg.pc), (0x00, C, 0x8002));
    // LSR $11 with an accumulator whose bit 0 is set
    cpu.reg.a = 0x01;
    step(&mut cpu);
    assert_eq!(cpu.read(0x0011), 0x01);
    assert_eq!((cpu.reg.a, cpu.reg.p, cpu.reg.pc), (0x01, 0, 0x8004));
    // ASL $1234
    step(&mut cpu);
    assert_eq!(cpu.read(0x1234), 0x80);
    assert_eq!((cpu.reg.p, cpu.reg.pc), (N, 0x8007));
}

#[test]
fn rotates_go_through_the_carry() {
    // ROL A
    let mut cpu = at_8000(&[0x2A, 0x2A, 0x6A, 0x6A]);
    cpu.reg.a = 0x80;
    step(&mut cpu);
    assert_eq!((cpu.reg.a, cpu.reg.p), (0x00, Z | C));
    step(&mut cpu);
    assert_eq!((cpu.reg.a, cpu.reg.p), (0x01, 0));
    // ROR A
    step(&mut cpu);
    assert_eq!((cpu.reg.a, cpu.reg.p), (0x00, Z | C));
    step(&mut cpu);
    assert_eq!((cpu.reg.a, cpu.reg.p), (0x80, N));
    assert_eq!(cpu.reg.pc, 0x8004);
}

#[test]
fn rotate_values() {
    let mut cpu = CPU::new();
    let rol = lookup(0x2A).unwrap();
    let ror = lookup(0x6A).unwrap();
    for a in 0..=255u8 {
        for carry in [false, true] {
            cpu.reg = RegisterSet { pc: 0, sp: 0xFF, a, x: 0, y: 0, p: 0 };
            cpu.reg.set_carry(carry);
            cpu.do_rotate_left(&rol);
            assert_eq!(cpu.reg.a, (a << 1) | carry as u8);
            assert_eq!(cpu.reg.get_carry(), a & 0x80 != 0);

            cpu.reg = RegisterSet { pc: 0, sp: 0xFF, a, x: 0, y: 0, p: 0 };
            cpu.reg.set_carry(carry);
            cpu.do_rotate_right(&ror);
            assert_eq!(cpu.reg.a, (a >> 1) | ((carry as u8) << 7));
            assert_eq!(cpu.reg.get_carry(), a & 0x01 != 0);
        }
    }
}

#[test]
fn rotate_with_a_memory_mode_rotates_the_accumulator() {
    // ROL $10
    let mut cpu = at_8000(&[0x26, 0x10]);
    cpu.load(0x0010, &[0x55]);
    cpu.reg.a = 0x41;
    step(&mut cpu);
    assert_eq!(cpu.reg.a, 0x82);
    assert_eq!(cpu.read(0x0010), 0x55);
    assert_eq!(cpu.reg.pc, 0x8002);
}

#[test]
fn branches_follow_their_flag() {
    // each pair: opcode, flag mask, taken when the flag is set
    let branches = [
        (0x10u8, N, false),
        (0x30, N, true),
        (0x50, V, false),
        (0x70, V, true),
        (0x90, C, false),
        (0xB0, C, true),
        (0xD0, Z, false),
        (0xF0, Z, true),
    ];
    for (code, mask, on_set) in branches {
        for flags in [0x00u8, mask, 0xFF, !mask] {
            let mut cpu = at_8000(&[code, 0x10]);
            cpu.reg.p = flags;
            step(&mut cpu);
            let set = flags & mask != 0;
            let expected = if set == on_set { 0x8012 } else { 0x8002 };
            assert_eq!(cpu.reg.pc, expected);
            assert_eq!(cpu.reg.p, flags);
        }
    }
}

#[test]
fn relative_addresses() {
    assert_eq!(relative_address(0x8002, 0x00), 0x8002);
    assert_eq!(relative_address(0x8002, 0x7F), 0x8081);
    assert_eq!(relative_address(0x8002, 0x80), 0x7F82);
    assert_eq!(relative_address(0x8002, 0xFF), 0x8001);
    assert_eq!(relative_address(0x0000, 0xFF), 0xFFFF);
    assert_eq!(relative_address(0xFFFF, 0x01), 0x0000);
    for from in [0x0000u16, 0x0001, 0x007F, 0x0080, 0x7FFF, 0x8000, 0xFF80, 0xFFFF] {
        for offset in 0..=255u8 {
            let expected = (from as i32 + (offset as i8) as i32).rem_euclid(0x10000) as u16;
            assert_eq!(relative_address(from, offset), expected);
        }
    }
}

#[test]
fn branch_offsets_are_signed() {
    // BNE *-5
    let mut cpu = at_8000(&[0xD0, 0xFB]);
    step(&mut cpu);
    assert_eq!(cpu.reg.pc, 0x7FFD);
    // BNE *+127
    let mut cpu = at_8000(&[0xD0, 0x7F]);
    step(&mut cpu);
    assert_eq!(cpu.reg.pc, 0x8081);
    // BNE *-128
    let mut cpu = at_8000(&[0xD0, 0x80]);
    step(&mut cpu);
    assert_eq!(cpu.reg.pc, 0x7F82);
    // the target wraps around the address space
    let mut cpu = CPU::new();
    cpu.load(0x0000, &[0xD0, 0xFC]);
    step(&mut cpu);
    assert_eq!(cpu.reg.pc, 0xFFFE);
    let mut cpu = CPU::new();
    cpu.load(0xFFF0, &[0xD0, 0x20]);
    cpu.reg.pc = 0xFFF0;
    step(&mut cpu);
    assert_eq!(cpu.reg.pc, 0x0012);
}

#[test]
fn brk_pushes_pc_and_status() {
    let mut cpu = at_8000(&[0x00]);
    cpu.reg.p = C | V;
    cpu.step(0x00).unwrap();
    assert_eq!(cpu.reg.pc, 0x8002);
    assert_eq!(cpu.reg.sp, 0xFC);
    assert_eq!(cpu.read(0x01FF), 0x80);
    assert_eq!(cpu.read(0x01FE), 0x02);
    assert_eq!(cpu.read(0x01FD), C | V | 0b0011_0000);
    // the status register itself keeps its value
    assert_eq!(cpu.reg.p, C | V);
}

#[test]
fn compares() {
    // CMP #, CPX #, CPY #
    let mut cpu = at_8000(&[0xC9, 0x10, 0xE0, 0x10, 0xC0, 0x10]);
    cpu.reg.a = 0x10;
    cpu.reg.x = 0x20;
    cpu.reg.y = 0x0F;
    step(&mut cpu);
    assert_eq!(cpu.reg.p, Z | C);
    step(&mut cpu);
    assert_eq!(cpu.reg.p, C);
    step(&mut cpu);
    assert_eq!(cpu.reg.p, N);
    assert_eq!((cpu.reg.a, cpu.reg.x, cpu.reg.y, cpu.reg.pc), (0x10, 0x20, 0x0F, 0x8006));
}

#[test]
fn compare_for_every_input() {
    let mut cpu = CPU::new();
    let cmp = lookup(0xC9).unwrap();
    for a in 0..=255u8 {
        for operand in 0..=255u8 {
            cpu.reg = RegisterSet { pc: 0x0200, sp: 0xFF, a, x: 0, y: 0, p: 0 };
            cpu.load(0x0200, &[operand]);
            cpu.do_compare(&cmp);
            assert_eq!(cpu.reg.get_carry(), a >= operand);
            assert_eq!(cpu.reg.get_zero(), a == operand);
            assert_eq!(cpu.reg.get_negative(), a.wrapping_sub(operand) >= 0x80);
            assert_eq!(cpu.reg.a, a);
        }
    }
}

#[test]
fn dec_and_inc_of_memory() {
    // DEC $10, DEC $10, INC $11, INC $11
    let mut cpu = at_8000(&[0xC6, 0x10, 0xC6, 0x10, 0xE6, 0x11, 0xE6, 0x11]);
    cpu.load(0x0010, &[0x01, 0xFE]);
    step(&mut cpu);
    assert_eq!((cpu.read(0x0010), cpu.reg.p), (0x00, Z));
    step(&mut cpu);
    assert_eq!((cpu.read(0x0010), cpu.reg.p), (0xFF, N));
    step(&mut cpu);
    assert_eq!((cpu.read(0x0011), cpu.reg.p), (0xFF, N));
    step(&mut cpu);
    assert_eq!((cpu.read(0x0011), cpu.reg.p), (0x00, Z));
    assert_eq!(cpu.reg.pc, 0x8008);
}

#[test]
fn flag_instructions() {
    // SEC SEI SED CLC CLI CLD CLV
    let mut cpu = at_8000(&[0x38, 0x78, 0xF8, 0x18, 0x58, 0xD8, 0xB8]);
    step(&mut cpu);
    assert_eq!(cpu.reg.p, C);
    step(&mut cpu);
    assert_eq!(cpu.reg.p, C | I);
    step(&mut cpu);
    assert_eq!(cpu.reg.p, C | I | D);
    cpu.reg.p = 0xFF;
    step(&mut cpu);
    assert_eq!(cpu.reg.p, 0xFF & !C);
    step(&mut cpu);
    assert_eq!(cpu.reg.p, 0xFF & !C & !I);
    step(&mut cpu);
    assert_eq!(cpu.reg.p, 0xFF & !C & !I & !D);
    step(&mut cpu);
    assert_eq!(cpu.reg.p, 0xFF & !C & !I & !D & !V);
    assert_eq!(cpu.reg.pc, 0x8007);
}

#[test]
fn flag_accessors() {
    let mut reg = RegisterSet::default();
    assert_eq!(reg, RegisterSet { pc: 0, sp: 0xFF, a: 0, x: 0, y: 0, p: 0 });
    reg.set_negative(true);
    assert_eq!(reg.p, 0b1000_0000);
    reg.set_overflow(true);
    assert_eq!(reg.p, 0b1100_0000);
    reg.set_break(true);
    assert_eq!(reg.p, 0b1101_0000);
    reg.set_decimal(true);
    assert_eq!(reg.p, 0b1101_1000);
    reg.set_interrupt(true);
    assert_eq!(reg.p, 0b1101_1100);
    reg.set_zero(true);
    assert_eq!(reg.p, 0b1101_1110);
    reg.set_carry(true);
    assert_eq!(reg.p, 0b1101_1111);
    assert!(reg.get_negative() && reg.get_overflow() && reg.get_break() && reg.get_decimal());
    assert!(reg.get_interrupt() && reg.get_zero() && reg.get_carry());
    reg.set_negative(false);
    assert_eq!(reg.p, 0b0101_1111);
    assert!(!reg.get_negative());
    reg.set_zero(false);
    assert_eq!(reg.p, 0b0101_1101);
    assert!(!reg.get_zero() && reg.get_carry());
    reg.p = 0b0010_0000;
    assert!(!reg.get_negative() && !reg.get_overflow() && !reg.get_break());
    assert!(!reg.get_decimal() && !reg.get_interrupt() && !reg.get_zero() && !reg.get_carry());
    reg.a = 7;
    reg.reset();
    assert_eq!(reg, RegisterSet { pc: 0, sp: 0xFF, a: 0, x: 0, y: 0, p: 0 });
}

#[test]
fn jumps() {
    // JMP $1234
    let mut cpu = at_8000(&[0x4C, 0x34, 0x12]);
    step(&mut cpu);
    assert_eq!(cpu.reg.pc, 0x1234);
    // JMP ($1234)
    let mut cpu = at_8000(&[0x6C, 0x34, 0x12]);
    cpu.load(0x1234, &[0x78, 0x56]);
    step(&mut cpu);
    assert_eq!(cpu.reg.pc, 0x5678);
    assert_eq!(cpu.reg.sp, 0xFF);
}

#[test]
fn subroutine_call_and_return() {
    // 8000: JSR $8005; 8003: INX; 8004: BRK; 8005: INY; 8006: RTS
    let mut cpu = at_8000(&[0x20, 0x05, 0x80, 0xE8, 0x00, 0xC8, 0x60]);
    step(&mut cpu);
    assert_eq!(cpu.reg.pc, 0x8005);
    assert_eq!(cpu.reg.sp, 0xFD);
    // the address of the last byte of the JSR is on the stack
    assert_eq!(cpu.read(0x01FF), 0x80);
    assert_eq!(cpu.read(0x01FE), 0x02);
    step(&mut cpu);
    assert_eq!(cpu.reg.y, 1);
    step(&mut cpu);
    assert_eq!(cpu.reg.pc, 0x8003);
    assert_eq!(cpu.reg.sp, 0xFF);
    assert_eq!(cpu.run(), Ok(()));
    assert_eq!((cpu.reg.x, cpu.reg.y, cpu.reg.pc), (1, 1, 0x8004));
}

#[test]
fn return_from_interrupt() {
    let mut cpu = at_8000(&[0x40]);
    cpu.push_u16(0x1234);
    cpu.push_u8(0xC3);
    step(&mut cpu);
    assert_eq!(cpu.reg.p, 0xC3);
    assert_eq!(cpu.reg.pc, 0x1234);
    assert_eq!(cpu.reg.sp, 0xFF);
}

#[test]
fn loads_and_stores() {
    // LDA $10; LDX $11; LDY $12; STA $20; STX $21; STY $22
    let mut cpu =
        at_8000(&[0xA5, 0x10, 0xA6, 0x11, 0xA4, 0x12, 0x85, 0x20, 0x86, 0x21, 0x84, 0x22]);
    cpu.load(0x0010, &[0x00, 0x80, 0x7F]);
    step(&mut cpu);
    assert_eq!((cpu.reg.a, cpu.reg.p), (0x00, Z));
    step(&mut cpu);
    assert_eq!((cpu.reg.x, cpu.reg.p), (0x80, N));
    step(&mut cpu);
    assert_eq!((cpu.reg.y, cpu.reg.p), (0x7F, 0));
    cpu.reg.p = 0xFF;
    step(&mut cpu);
    step(&mut cpu);
    step(&mut cpu);
    assert_eq!((cpu.read(0x20), cpu.read(0x21), cpu.read(0x22)), (0x00, 0x80, 0x7F));
    // stores touch no flag
    assert_eq!(cpu.reg.p, 0xFF);
    assert_eq!(cpu.reg.pc, 0x800C);
}

#[test]
fn indexed_stores() {
    // STY $10,X; STX $10,Y; STA $10,X
    let mut cpu = at_8000(&[0x94, 0x10, 0x96, 0x10, 0x95, 0x10]);
    cpu.reg.a = 0xAA;
    cpu.reg.x = 0x01;
    cpu.reg.y = 0x05;
    step(&mut cpu);
    assert_eq!(cpu.read(0x0011), 0x05);
    assert_eq!(cpu.read(0x0015), 0x00);
    step(&mut cpu);
    assert_eq!(cpu.read(0x0015), 0x01);
    step(&mut cpu);
    assert_eq!(cpu.read(0x0011), 0xAA);
    assert_eq!(cpu.reg.pc, 0x8006);
    assert_eq!(cpu.reg.p, 0);
}

#[test]
fn load_through_every_addressing_mode() {
    let mut cpu = CPU::new();
    cpu.reg.x = 0x01;
    cpu.reg.y = 0x02;
    cpu.load(0x0040, &[0x11, 0x22, 0x00, 0x30]);
    cpu.load(0x3000, &[0x33, 0x44, 0x55]);
    cpu.load(0x3344, &[0x66]);
    // (opcode, operand bytes, expected accumulator)
    let cases: [(u8, &[u8], u8); 8] = [
        (0xA9, &[0x99], 0x99),
        (0xA5, &[0x40], 0x11),
        (0xB5, &[0x40], 0x22),
        (0xAD, &[0x00, 0x30], 0x33),
        (0xBD, &[0x00, 0x30], 0x44),
        (0xB9, &[0x00, 0x30], 0x55),
        // (zp,X): the pointer at 0x42 holds 0x3000
        (0xA1, &[0x41], 0x33),
        // (zp),Y: the pointer at 0x42 holds 0x3000, plus Y
        (0xB1, &[0x42], 0x55),
    ];
    for (code, operand, expected) in cases {
        cpu.reg.pc = 0x8000;
        cpu.load(0x8000, &[code]);
        cpu.load(0x8001, operand);
        cpu.reg.a = 0;
        cpu.step(code).unwrap();
        assert_eq!(cpu.reg.a, expected);
        assert_eq!(cpu.reg.pc, 0x8001 + operand.len() as u16);
    }
}

#[test]
fn register_transfers() {
    // TAX TAY INX INY DEX DEY TXA TYA
    let mut cpu = at_8000(&[0xAA, 0xA8, 0xE8, 0xC8, 0xCA, 0x88, 0x8A, 0x98]);
    cpu.reg.a = 0xFF;
    step(&mut cpu);
    assert_eq!((cpu.reg.x, cpu.reg.p), (0xFF, N));
    step(&mut cpu);
    assert_eq!((cpu.reg.y, cpu.reg.p), (0xFF, N));
    step(&mut cpu);
    assert_eq!((cpu.reg.x, cpu.reg.p), (0x00, Z));
    step(&mut cpu);
    assert_eq!((cpu.reg.y, cpu.reg.p), (0x00, Z));
    step(&mut cpu);
    assert_eq!((cpu.reg.x, cpu.reg.p), (0xFF, N));
    cpu.reg.y = 0x01;
    step(&mut cpu);
    assert_eq!((cpu.reg.y, cpu.reg.p), (0x00, Z));
    step(&mut cpu);
    assert_eq!((cpu.reg.a, cpu.reg.p), (0xFF, N));
    step(&mut cpu);
    assert_eq!((cpu.reg.a, cpu.reg.p), (0x00, Z));
    assert_eq!(cpu.reg.pc, 0x8008);
}

#[test]
fn stack_instructions() {
    // PHA; PHP; TSX; PLP; PLA; TXS, each one byte long
    let mut cpu = at_8000(&[0x48, 0x08, 0xBA, 0x28, 0x68, 0x9A]);
    cpu.reg.a = 0x42;
    cpu.reg.p = N | C;
    step(&mut cpu);
    assert_eq!((cpu.read(0x01FF), cpu.reg.sp, cpu.reg.pc), (0x42, 0xFE, 0x8001));
    step(&mut cpu);
    assert_eq!((cpu.read(0x01FE), cpu.reg.sp, cpu.reg.pc), (N | C | 0x30, 0xFD, 0x8002));
    step(&mut cpu);
    assert_eq!((cpu.reg.x, cpu.reg.p, cpu.reg.pc), (0xFD, N | C, 0x8003));
    cpu.reg.p = 0;
    step(&mut cpu);
    // bits 4 and 5 of the pulled byte are dropped
    assert_eq!((cpu.reg.p, cpu.reg.sp, cpu.reg.pc), (N | C, 0xFE, 0x8004));
    cpu.reg.a = 0;
    step(&mut cpu);
    assert_eq!((cpu.reg.a, cpu.reg.p, cpu.reg.sp, cpu.reg.pc), (0x42, N | C, 0xFF, 0x8005));
    step(&mut cpu);
    assert_eq!((cpu.reg.sp, cpu.reg.p, cpu.reg.pc), (0xFD, N | C, 0x8006));
}

#[test]
fn pha_is_one_byte_long() {
    let mut cpu = CPU::new();
    cpu.reg.a = 0x42;
    cpu.reg.pc = 0x0200;
    assert_eq!(cpu.step(0x48), Ok(()));
    assert_eq!(cpu.reg.pc, 0x0201);
    assert_eq!(cpu.read(0x01FF), 0x42);
    assert_eq!(cpu.reg.sp, 0xFE);
    assert_eq!(cpu.reg.a, 0x42);
    assert_eq!(cpu.reg.p, 0);
}

#[test]
fn push_and_pull_in_a_program() {
    // LDA #$42; PHA; LDA #$00; PLA; TAX; BRK
    let mut cpu = at_8000(&[0xA9, 0x42, 0x48, 0xA9, 0x00, 0x68, 0xAA, 0x00]);
    assert_eq!(cpu.run(), Ok(()));
    assert_eq!((cpu.reg.a, cpu.reg.x, cpu.reg.sp, cpu.reg.pc), (0x42, 0x42, 0xFF, 0x8007));
}

#[test]
fn instructions_are_as_long_as_their_mode_says() {
    for code in 0..=255u8 {
        if let Some(opcode) = lookup(code) {
            assert_eq!(opcode.bytes, 1 + opcode.mode.operand_bytes());
            // the program counter passes exactly these bytes, but for the
            // instructions that set it themselves
            let mut cpu = CPU::new();
            cpu.reg.pc = 0x4000;
            cpu.load(0x4000, &[code]);
            cpu.step(code).unwrap();
            let sets_pc = [0x4C, 0x6C, 0x20, 0x60, 0x40, 0x00].contains(&code);
            let branch = opcode.mode == nes_rs::cpu::addr::AddressMode::Relative;
            if !sets_pc && !branch {
                assert_eq!(cpu.reg.pc, 0x4000 + opcode.bytes as u16);
            }
        }
    }
}

#[test]
fn nop_only_moves_the_program_counter() {
    let mut cpu = at_8000(&[0xEA]);
    cpu.reg = RegisterSet { pc: 0x8000, sp: 0x12, a: 0x34, x: 0x56, y: 0x78, p: 0x9A };
    step(&mut cpu);
    assert_eq!(cpu.reg, RegisterSet { pc: 0x8001, sp: 0x12, a: 0x34, x: 0x56, y: 0x78, p: 0x9A });
}

#[test]
fn program_counter_wraps() {
    let mut cpu = CPU::new();
    cpu.load(0xFFFF, &[0xEA]);
    cpu.reg.pc = 0xFFFF;
    step(&mut cpu);
    assert_eq!(cpu.reg.pc, 0x0000);
    // LDA # at the last address reads its operand from address zero
    cpu.load(0xFFFF, &[0xA9]);
    cpu.load(0x0000, &[0x77]);
    cpu.reg.pc = 0xFFFF;
    step(&mut cpu);
    assert_eq!((cpu.reg.a, cpu.reg.pc), (0x77, 0x0001));
}
