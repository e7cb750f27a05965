use nes_rs::cpu::addr::AddressMode;
use nes_rs::cpu::ops::Mnemonic;
use nes_rs::cpu::prog::grammar::{ErrorKind, OperandMode};
use nes_rs::cpu::prog::instructions::{Instruction, Operand};
use nes_rs::cpu::prog::parse;
use nes_rs::cpu::prog::parse::ParseError;

#[test]
fn test_parse_zp_addr() {
    assert_eq!(parse::zp_addr(b"$23"), Ok((&b""[..], 0x23)));

    assert_eq!(parse::zp_addr(b"$FF Hello"), Ok((&b" Hello"[..], 0xFF)));

    assert_eq!(parse::zp_addr(b"$00,World"), Ok((&b",World"[..], 0x00)));

    assert_eq!(
        parse::zp_addr(b"$003)Bye"),
        Err(ParseError { input: &b"003)Bye"[..], code: ErrorKind::HexDigit })
    );
}

#[test]
fn test_parse_accumulator() {
    assert_eq!(
        parse::accumulator(b"A ;a comment\nLDA #02\n"),
        Ok((&b" ;a comment\nLDA #02\n"[..], OperandMode::new(Operand::Nothing, AddressMode::Accumulator))),
    );
}

#[test]
fn test_parse_implicit() {
    assert_eq!(parse::implicit(b""), Ok((&b""[..], OperandMode::new(Operand::Nothing, AddressMode::Implicit))));
}

#[test]
fn test_parse_relative() {
    assert_eq!(
        parse::relative(b"*-23"),
        Ok((&b""[..], OperandMode::new(Operand::Word(-23_i8 as u8), AddressMode::Relative)))
    );
}

#[test]
fn test_parse_operand() {
    assert_eq!(
        parse::operand(b"$34,Y ;comment\nLDA"),
        Ok((&b" ;comment\nLDA"[..], OperandMode::new(Operand::Word(0x34), AddressMode::ZeroPageY)))
    );

    assert_eq!(
        parse::operand(b"($34,X) ;comment\nLDA"),
        Ok((&b" ;comment\nLDA"[..], OperandMode::new(Operand::Word(0x34), AddressMode::IndirectX)))
    );

    assert_eq!(
        parse::operand(b"$3423,X ;comment\nLDA"),
        Ok((&b" ;comment\nLDA"[..], OperandMode::new(Operand::DoubleWord(0x3423), AddressMode::AbsoluteX)))
    );

    assert_eq!(
        parse::operand(b"*-23 ;comment\nLDA"),
        Ok((&b" ;comment\nLDA"[..], OperandMode::new(Operand::Word(-23i8 as u8), AddressMode::Relative)))
    );
}

#[test]
fn test_parse_mnemonic() {
    assert_eq!(parse::mnemonic(b"LDA"), Ok((&b""[..], Mnemonic::LDA)));
    assert_eq!(parse::mnemonic(b"TAXABC"), Ok((&b"ABC"[..], Mnemonic::TAX)));
}

#[test]
fn test_parse_instruction() {
    assert_eq!(
        parse::instruction(b"LDA #02\n"),
        Ok((
            &b"\n"[..],
            Instruction::new(Mnemonic::LDA, Operand::Word(0x02), AddressMode::Immediate,)
        ))
    );

    assert_eq!(
        parse::instruction(b"RTS\n"),
        Ok((
            &b"\n"[..],
            Instruction::new(Mnemonic::RTS, Operand::Nothing, AddressMode::Implicit,)
        ))
    );

    assert_eq!(
        parse::instruction(b"BPL *-23\n"),
        Ok((
            &b"\n"[..],
            Instruction::new(Mnemonic::BPL, Operand::Word(-23_i8 as u8), AddressMode::Relative,)
        ))
    );

    assert_eq!(
        parse::instruction(b"DEC $FF23,X\n"),
        Ok((
            &b"\n"[..],
            Instruction::new(Mnemonic::DEC, Operand::DoubleWord(0xFF23), AddressMode::AbsoluteX,)
        ))
    );
}

#[test]
fn test_parse_comment() {
    assert_eq!(
        parse::comment(b";a comment\nLDA #02\n"),
        Ok((&b"\nLDA #02\n"[..], &b"a comment"[..])),
    );
}

#[test]
fn test_parse_line() {
    assert_eq!(
        parse::line(b"LDA #02\nTAX\nBRK\n"),
        Ok((
            &b"TAX\nBRK\n"[..],
            Some(Instruction::new(Mnemonic::LDA, Operand::Word(0x02), AddressMode::Immediate,)),
        ))
    );
}

#[test]
fn test_parse_program() {
    assert_eq!(
        parse::program(b"LDA #02\nDEC $FF23,X ;Nonsense comment\n;No content\nBRK\n"),
        Ok((
            &b""[..],
            vec![
                Instruction::new(Mnemonic::LDA, Operand::Word(0x02), AddressMode::Immediate,),
                Instruction::new(
                    Mnemonic::DEC,
                    Operand::DoubleWord(0xFF23),
                    AddressMode::AbsoluteX,
                ),
                Instruction::new(Mnemonic::BRK, Operand::Nothing, AddressMode::Implicit,)
            ]
        ))
    );

    let code_chunk = r#"lda #10 ;put the hex number $10 (dec 16) in register A
        sta $12  ;store value of register A at address hex $12
        lda #0f ;put the hex number $0f (dec 15) in register A
        sta $14  ;store value of register A at address hex $14
      
        ;the most significant bytes are all set to hex $04
        ;which is the third 8x32 strip.
        lda #04 ;put the hex number $04 in register A
        sta $11  ;store value of register A at address hex 11
        sta $13  ;store value of register A at address hex 13
        sta $15  ;store value of register A at address hex 15
        rts      ;return
        "#;

    parse::program(code_chunk.as_bytes()).unwrap();
}
