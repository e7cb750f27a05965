use nes_rs::cpu::addr::AddressMode;
use nes_rs::cpu::ops::{nmos_6502_opcodes, Mnemonic};
use nes_rs::cpu::prog::compile::{parse_assembly, TextError};
use nes_rs::cpu::prog::grammar::{Class, ErrorKind, OperandMode};
use nes_rs::cpu::prog::instructions::{Instruction, Operand};
use nes_rs::cpu::prog::parse;
use nes_rs::cpu::prog::parse::ParseError;

fn failure(input: &[u8], code: ErrorKind) -> ParseError<'_> {
    ParseError { input, code }
}

fn found(operand: Operand, mode: AddressMode) -> OperandMode {
    OperandMode::new(operand, mode)
}

#[test]
fn runs_of_a_class() {
    assert_eq!(parse::run_length(b"  \t x", Class::Space), 4);
    assert_eq!(parse::run_length(b"x  ", Class::Space), 0);
    assert_eq!(parse::run_length(b"", Class::Space), 0);
    assert_eq!(parse::run_length(b"0129a", Class::Digit), 4);
    assert_eq!(parse::run_length(b"09afAFg", Class::HexDigit), 6);
    assert_eq!(parse::run_length(b"/:@G`g", Class::HexDigit), 0);
    assert_eq!(parse::run_length(b"123", Class::Digit), 3);
    for byte in 0..=255u8 {
        assert_eq!(parse::in_class(Class::Space, byte), byte == b' ' || byte == b'\t');
        assert_eq!(parse::in_class(Class::Digit, byte), byte.is_ascii_digit());
        assert_eq!(parse::in_class(Class::HexDigit, byte), byte.is_ascii_hexdigit());
    }
}

#[test]
fn fixed_texts() {
    assert_eq!(parse::tag(b",X)", b",X"), Ok(&b")"[..]));
    assert_eq!(parse::tag(b",x)", b",X"), Ok(&b")"[..]));
    assert_eq!(parse::tag(b",X", b",x"), Ok(&b""[..]));
    assert_eq!(parse::tag(b"abc", b""), Ok(&b"abc"[..]));
    assert_eq!(parse::tag(b",", b",X"), Err(failure(b",", ErrorKind::Tag)));
    assert_eq!(parse::tag(b",Y", b",X"), Err(failure(b",Y", ErrorKind::Tag)));
    assert_eq!(parse::tag(b"", b"A"), Err(failure(b"", ErrorKind::Tag)));
    // only letters have two cases
    assert_eq!(parse::tag(b"[", b"{"), Err(failure(b"[", ErrorKind::Tag)));
    assert_eq!(parse::tag(b"@", b"`"), Err(failure(b"@", ErrorKind::Tag)));
}

#[test]
fn hexadecimal_numbers() {
    assert_eq!(parse::hex_byte(b"00"), Ok((&b""[..], 0x00)));
    assert_eq!(parse::hex_byte(b"fF,"), Ok((&b","[..], 0xFF)));
    assert_eq!(parse::hex_byte(b"a9g"), Ok((&b"g"[..], 0xA9)));
    assert_eq!(parse::hex_byte(b"1"), Err(failure(b"1", ErrorKind::HexDigit)));
    assert_eq!(parse::hex_byte(b"123"), Err(failure(b"123", ErrorKind::HexDigit)));
    assert_eq!(parse::hex_byte(b""), Err(failure(b"", ErrorKind::HexDigit)));
    assert_eq!(parse::hex_byte(b"x12"), Err(failure(b"x12", ErrorKind::HexDigit)));
    assert_eq!(parse::hex_double_byte(b"1234"), Ok((&b""[..], 0x1234)));
    assert_eq!(parse::hex_double_byte(b"abCD)"), Ok((&b")"[..], 0xABCD)));
    assert_eq!(parse::hex_double_byte(b"ffff"), Ok((&b""[..], 0xFFFF)));
    assert_eq!(parse::hex_double_byte(b"0010 "), Ok((&b" "[..], 0x0010)));
    assert_eq!(parse::hex_double_byte(b"12"), Err(failure(b"12", ErrorKind::HexDigit)));
    assert_eq!(parse::hex_double_byte(b"12345"), Err(failure(b"12345", ErrorKind::HexDigit)));
    for value in 0..=255u8 {
        let lower = format!("{:02x}", value);
        let upper = format!("{:02X}", value);
        assert_eq!(parse::hex_byte(lower.as_bytes()), Ok((&b""[..], value)));
        assert_eq!(parse::hex_byte(upper.as_bytes()), Ok((&b""[..], value)));
    }
}

#[test]
fn addresses() {
    assert_eq!(parse::zp_addr(b"$a0"), Ok((&b""[..], 0xA0)));
    assert_eq!(parse::zp_addr(b"a0"), Err(failure(b"a0", ErrorKind::Tag)));
    assert_eq!(parse::zp_addr(b"$1234"), Err(failure(b"1234", ErrorKind::HexDigit)));
    assert_eq!(parse::abs_addr(b"$1234,X"), Ok((&b",X"[..], 0x1234)));
    assert_eq!(parse::abs_addr(b"$12"), Err(failure(b"12", ErrorKind::HexDigit)));
    assert_eq!(parse::abs_addr(b""), Err(failure(b"", ErrorKind::Tag)));
}

#[test]
fn operands_one_by_one() {
    assert_eq!(parse::implicit(b"x"), Ok((&b"x"[..], found(Operand::Nothing, AddressMode::Implicit))));
    assert_eq!(
        parse::accumulator(b"a\n"),
        Ok((&b"\n"[..], found(Operand::Nothing, AddressMode::Accumulator)))
    );
    assert_eq!(parse::accumulator(b"B"), Err(failure(b"B", ErrorKind::Tag)));
    assert_eq!(
        parse::immediate(b"#7f "),
        Ok((&b" "[..], found(Operand::Word(0x7F), AddressMode::Immediate)))
    );
    assert_eq!(parse::immediate(b"7f"), Err(failure(b"7f", ErrorKind::Tag)));
    assert_eq!(parse::immediate(b"#7"), Err(failure(b"7", ErrorKind::HexDigit)));
    assert_eq!(
        parse::zeropage(b"$10 "),
        Ok((&b" "[..], found(Operand::Word(0x10), AddressMode::ZeroPage)))
    );
    assert_eq!(parse::zeropage(b"$10,X"), Err(failure(b"$10,X", ErrorKind::Fail)));
    assert_eq!(parse::zeropage(b"$10)"), Err(failure(b"$10)", ErrorKind::Fail)));
    assert_eq!(
        parse::zeropage_x(b"$10,x"),
        Ok((&b""[..], found(Operand::Word(0x10), AddressMode::ZeroPageX)))
    );
    assert_eq!(parse::zeropage_x(b"$10,Y"), Err(failure(b",Y", ErrorKind::Tag)));
    assert_eq!(
        parse::zeropage_y(b"$10,Y;"),
        Ok((&b";"[..], found(Operand::Word(0x10), AddressMode::ZeroPageY)))
    );
    assert_eq!(parse::zeropage_y(b"$10"), Err(failure(b"", ErrorKind::Tag)));
    assert_eq!(
        parse::absolute(b"$c000"),
        Ok((&b""[..], found(Operand::DoubleWord(0xC000), AddressMode::Absolute)))
    );
    assert_eq!(parse::absolute(b"$c000,Y"), Err(failure(b"$c000,Y", ErrorKind::TooLarge)));
    assert_eq!(
        parse::absolute_x(b"$c000,X"),
        Ok((&b""[..], found(Operand::DoubleWord(0xC000), AddressMode::AbsoluteX)))
    );
    assert_eq!(
        parse::absolute_y(b"$c000,y"),
        Ok((&b""[..], found(Operand::DoubleWord(0xC000), AddressMode::AbsoluteY)))
    );
    assert_eq!(parse::absolute_y(b"$c000,X"), Err(failure(b",X", ErrorKind::Tag)));
    assert_eq!(
        parse::indirect(b"($20)"),
        Ok((&b""[..], found(Operand::Word(0x20), AddressMode::Indirect)))
    );
    assert_eq!(parse::indirect(b"$20)"), Err(failure(b"$20)", ErrorKind::Tag)));
    assert_eq!(parse::indirect(b"(20)"), Err(failure(b"20)", ErrorKind::Tag)));
    assert_eq!(parse::indirect(b"($20,X)"), Err(failure(b",X)", ErrorKind::Tag)));
    assert_eq!(
        parse::indirect_x(b"($20,X)"),
        Ok((&b""[..], found(Operand::Word(0x20), AddressMode::IndirectX)))
    );
    assert_eq!(
        parse::indirect_y(b"($20),Y"),
        Ok((&b""[..], found(Operand::Word(0x20), AddressMode::IndirectY)))
    );
    assert_eq!(parse::indirect_y(b"($20)"), Err(failure(b")", ErrorKind::Tag)));
}

#[test]
fn branch_offsets() {
    let ok = |value: u8| found(Operand::Word(value), AddressMode::Relative);
    assert_eq!(parse::relative(b"*+0"), Ok((&b""[..], ok(0))));
    assert_eq!(parse::relative(b"*-0"), Ok((&b""[..], ok(0))));
    assert_eq!(parse::relative(b"*+127"), Ok((&b""[..], ok(127))));
    assert_eq!(parse::relative(b"*-128"), Ok((&b""[..], ok(0x80))));
    assert_eq!(parse::relative(b"*-1 "), Ok((&b" "[..], ok(0xFF))));
    assert_eq!(parse::relative(b"*+0005x"), Ok((&b"x"[..], ok(5))));
    assert_eq!(parse::relative(b"*+128"), Err(failure(b"*+128", ErrorKind::MapRes)));
    assert_eq!(parse::relative(b"*-129"), Err(failure(b"*-129", ErrorKind::MapRes)));
    assert_eq!(
        parse::relative(b"*+99999999999999999999999"),
        Err(failure(b"*+99999999999999999999999", ErrorKind::MapRes))
    );
    assert_eq!(parse::relative(b"+5"), Err(failure(b"+5", ErrorKind::Tag)));
    assert_eq!(parse::relative(b"*5"), Err(failure(b"5", ErrorKind::OneOf)));
    assert_eq!(parse::relative(b"*"), Err(failure(b"", ErrorKind::OneOf)));
    assert_eq!(parse::relative(b"*+"), Err(failure(b"", ErrorKind::Digit)));
    assert_eq!(parse::relative(b"*-x"), Err(failure(b"x", ErrorKind::Digit)));
    for offset in -128..=127i16 {
        let text = format!("*{:+}", offset);
        assert_eq!(parse::relative(text.as_bytes()), Ok((&b""[..], ok(offset as i8 as u8))));
    }
}

#[test]
fn operand_takes_the_first_spelling() {
    let cases: [(&[u8], &[u8], Operand, AddressMode); 14] = [
        (b"A", b"", Operand::Nothing, AddressMode::Accumulator),
        (b"#01", b"", Operand::Word(1), AddressMode::Immediate),
        (b"$01", b"", Operand::Word(1), AddressMode::ZeroPage),
        (b"$01,X", b"", Operand::Word(1), AddressMode::ZeroPageX),
        (b"$01,Y", b"", Operand::Word(1), AddressMode::ZeroPageY),
        (b"*+1", b"", Operand::Word(1), AddressMode::Relative),
        (b"$0001", b"", Operand::DoubleWord(1), AddressMode::Absolute),
        (b"$0001,X", b"", Operand::DoubleWord(1), AddressMode::AbsoluteX),
        (b"$0001,Y", b"", Operand::DoubleWord(1), AddressMode::AbsoluteY),
        (b"($01)", b"", Operand::Word(1), AddressMode::Indirect),
        (b"($01,X)", b"", Operand::Word(1), AddressMode::IndirectX),
        // the indirect spelling comes first and leaves the index
        (b"($01),Y", b",Y", Operand::Word(1), AddressMode::Indirect),
        (b"", b"", Operand::Nothing, AddressMode::Implicit),
        (b"$012", b"$012", Operand::Nothing, AddressMode::Implicit),
    ];
    for (text, rest, operand, mode) in cases {
        assert_eq!(parse::operand(text), Ok((rest, found(operand, mode))));
    }
    // an A at the front is the accumulator whatever follows
    assert_eq!(
        parse::operand(b"ABC"),
        Ok((&b"BC"[..], found(Operand::Nothing, AddressMode::Accumulator)))
    );
    assert!(matches!(
        parse_assembly("LDA ($01),Y\n"),
        Err(TextError { offset: 9, code: ErrorKind::Eof })
    ));
}

#[test]
fn every_mnemonic_by_name() {
    let mut seen = Vec::new();
    for entry in nmos_6502_opcodes() {
        let name = entry.mnemonic.as_str();
        assert_eq!(name.len(), 3);
        assert_eq!(name, format!("{:?}", entry.mnemonic));
        assert_eq!(parse::mnemonic(name.as_bytes()), Ok((&b""[..], entry.mnemonic)));
        let lower = name.to_lowercase();
        assert_eq!(parse::mnemonic(lower.as_bytes()), Ok((&b""[..], entry.mnemonic)));
        let b = name.as_bytes();
        assert_eq!(parse::mnemonic_named(b[0], b[1], b[2]), Some(entry.mnemonic));
        assert_eq!(parse::mnemonic_named(lower.as_bytes()[0], b[1], b[2]), None);
        if !seen.contains(&entry.mnemonic) {
            seen.push(entry.mnemonic);
        }
    }
    assert_eq!(seen.len(), 56);
    assert_eq!(parse::mnemonic(b"LD"), Err(failure(b"LD", ErrorKind::Eof)));
    assert_eq!(parse::mnemonic(b""), Err(failure(b"", ErrorKind::Eof)));
    assert_eq!(parse::mnemonic(b"LDQ #01"), Err(failure(b"LDQ #01", ErrorKind::Tag)));
    assert_eq!(parse::mnemonic(b" LDA"), Err(failure(b" LDA", ErrorKind::Tag)));
    assert_eq!(parse::mnemonic(b"lDa"), Ok((&b""[..], Mnemonic::LDA)));
}

#[test]
fn instructions() {
    let instruction = |m, o, mode| Instruction::new(m, o, mode);
    assert_eq!(
        parse::instruction(b"asl A"),
        Ok((&b""[..], instruction(Mnemonic::ASL, Operand::Nothing, AddressMode::Accumulator)))
    );
    // a gap and nothing an operand starts with: implicit, the gap is read
    assert_eq!(
        parse::instruction(b"RTS \t ;x"),
        Ok((&b";x"[..], instruction(Mnemonic::RTS, Operand::Nothing, AddressMode::Implicit)))
    );
    // no gap: implicit, and what follows stays
    assert_eq!(
        parse::instruction(b"LDA#01"),
        Ok((&b"#01"[..], instruction(Mnemonic::LDA, Operand::Nothing, AddressMode::Implicit)))
    );
    assert_eq!(
        parse::instruction(b"JMP\t($10)"),
        Ok((&b""[..], instruction(Mnemonic::JMP, Operand::Word(0x10), AddressMode::Indirect)))
    );
    assert_eq!(parse::instruction(b"XX"), Err(failure(b"XX", ErrorKind::Eof)));
    assert_eq!(parse::instruction(b"FOO $10"), Err(failure(b"FOO $10", ErrorKind::Tag)));
}

#[test]
fn comments() {
    assert_eq!(parse::comment(b";"), Ok((&b""[..], &b""[..])));
    assert_eq!(parse::comment(b"; to the end"), Ok((&b""[..], &b" to the end"[..])));
    assert_eq!(parse::comment(b";a\r\nb"), Ok((&b"\r\nb"[..], &b"a"[..])));
    assert_eq!(parse::comment(b";\nb"), Ok((&b"\nb"[..], &b""[..])));
    assert_eq!(parse::comment("; gr\u{fc}n\n".as_bytes()), Ok((&b"\n"[..], " gr\u{fc}n".as_bytes())));
    // a carriage return alone ends no line
    assert_eq!(parse::comment(b";a\rb"), Err(failure(b"a\rb", ErrorKind::Tag)));
    assert_eq!(parse::comment(b";a\r"), Err(failure(b"a\r", ErrorKind::Tag)));
    assert_eq!(parse::comment(b"a"), Err(failure(b"a", ErrorKind::Tag)));
    assert_eq!(parse::comment(b""), Err(failure(b"", ErrorKind::Tag)));
}

#[test]
fn ends_of_lines() {
    assert_eq!(parse::end_of_line(b"\nx"), Ok(&b"x"[..]));
    assert_eq!(parse::end_of_line(b"\r\nx"), Ok(&b"x"[..]));
    assert_eq!(parse::end_of_line(b""), Ok(&b""[..]));
    assert_eq!(parse::end_of_line(b"\r"), Err(failure(b"\r", ErrorKind::Eof)));
    assert_eq!(parse::end_of_line(b"x\n"), Err(failure(b"x\n", ErrorKind::Eof)));
}

#[test]
fn lines() {
    let lda = Instruction::new(Mnemonic::LDA, Operand::Word(2), AddressMode::Immediate);
    assert_eq!(parse::line(b""), Ok((&b""[..], None)));
    assert_eq!(parse::line(b"   "), Ok((&b""[..], None)));
    assert_eq!(parse::line(b"\nx"), Ok((&b"x"[..], None)));
    assert_eq!(parse::line(b" \t; only a comment\r\nnext"), Ok((&b"next"[..], None)));
    assert_eq!(parse::line(b"  LDA #02"), Ok((&b""[..], Some(lda))));
    assert_eq!(parse::line(b"LDA #02;c\n"), Ok((&b""[..], Some(lda))));
    assert_eq!(parse::line(b"LDA #02  \t ; c\nTAX"), Ok((&b"TAX"[..], Some(lda))));
    // spaces before the end of the line and no comment
    assert_eq!(parse::line(b"LDA #02  \n"), Err(failure(b"  \n", ErrorKind::Eof)));
    assert_eq!(parse::line(b"LDA #02 TAX\n"), Err(failure(b" TAX\n", ErrorKind::Eof)));
    assert_eq!(parse::line(b"?\n"), Err(failure(b"?\n", ErrorKind::Eof)));
    // a comment that fails is no comment
    assert_eq!(parse::line(b"NOP ;a\rb\n"), Err(failure(b";a\rb\n", ErrorKind::Eof)));
}

#[test]
fn programs() {
    assert_eq!(parse::program(b""), Ok((&b""[..], vec![])));
    assert_eq!(parse::program(b"\n\n  \n"), Ok((&b""[..], vec![])));
    assert_eq!(
        parse::program(b"nop\nNOP"),
        Ok((
            &b""[..],
            vec![
                Instruction::new(Mnemonic::NOP, Operand::Nothing, AddressMode::Implicit),
                Instruction::new(Mnemonic::NOP, Operand::Nothing, AddressMode::Implicit)
            ]
        ))
    );
    assert_eq!(parse::program(b"NOP\n!\nNOP\n"), Err(failure(b"!\nNOP\n", ErrorKind::Eof)));
}
