use nes_rs::cpu::addr::AddressMode;
use nes_rs::cpu::decomp::{
    decompile_to_instructions, decompile_to_string, DecodeError, Instruction, Operand,
};
use nes_rs::cpu::ops::{lookup, Mnemonic};
use nes_rs::cpu::prog::compile::{parse_assembly, TextError};
use nes_rs::cpu::prog::grammar::ErrorKind;
use nes_rs::prog::{disassemble, Program};

#[test]
fn every_addressing_mode_as_text() {
    let program = [
        0x00, // BRK
        0x0A, // ASL A
        0xA9, 0x0f, // LDA #0f
        0xA5, 0x10, // LDA $10
        0xB5, 0xa0, // LDA $a0,X
        0xB6, 0x01, // LDX $01,Y
        0xD0, 0xFB, // BNE *+251
        0xAD, 0x34, 0x12, // LDA $1234
        0xBD, 0xCD, 0xAB, // LDA $abcd,X
        0xB9, 0x00, 0x01, // LDA $0100,Y
        0x6C, 0xFC, 0xFF, // JMP ($fffc)
        0xA1, 0x20, // LDA ($20,X)
        0xB1, 0x21, // LDA ($21),Y
        0x90, 0x05, // BCC *+5
        0xF0, 0x64, // BEQ *+100
    ];
    let text = decompile_to_string(&program).unwrap();
    assert_eq!(
        text,
        "BRK\nASL A\nLDA #0f\nLDA $10\nLDA $a0,X\nLDX $01,Y\nBNE *+251\nLDA $1234\n\
         LDA $abcd,X\nLDA $0100,Y\nJMP ($fffc)\nLDA ($20,X)\nLDA ($21),Y\nBCC *+5\nBEQ *+100"
    );
}

#[test]
fn empty_program() {
    assert_eq!(decompile_to_string(&[]).unwrap(), "");
    assert_eq!(decompile_to_instructions(&[]).unwrap(), vec![]);
    let program = disassemble(&[]).unwrap();
    assert_eq!(program.start, 0);
    assert!(program.code.is_empty());
    assert_eq!(program.to_string(), "");
    let fresh = Program::new();
    assert_eq!(fresh.start, 0);
    assert!(fresh.code.is_empty());
}

#[test]
fn decoded_instructions() {
    let decoded = decompile_to_instructions(&[0xA9, 0x23, 0x8D, 0x00, 0x02, 0x00]).unwrap();
    assert_eq!(
        decoded,
        vec![
            Instruction { opcode: lookup(0xA9).unwrap(), operand: Operand::Word(0x23) },
            Instruction { opcode: lookup(0x8D).unwrap(), operand: Operand::DoubleWord(0x0200) },
            Instruction { opcode: lookup(0x00).unwrap(), operand: Operand::Nothing },
        ]
    );
    assert_eq!(decoded[1].to_string(), "STA $0200");
}

#[test]
fn decode_errors() {
    assert_eq!(decompile_to_instructions(&[0xA9, 0x23, 0x02]), Err(DecodeError::UnknownOpcode(0x02)));
    assert_eq!(decompile_to_string(&[0xFF]), Err(DecodeError::UnknownOpcode(0xFF)));
    assert_eq!(decompile_to_instructions(&[0xA9]), Err(DecodeError::MissingOperand(0xA9)));
    assert_eq!(decompile_to_instructions(&[0xEA, 0xAD, 0x00]), Err(DecodeError::MissingOperand(0xAD)));
    assert_eq!(decompile_to_string(&[0x4C]), Err(DecodeError::MissingOperand(0x4C)));
    assert!(matches!(disassemble(&[0x00, 0x03]), Err(DecodeError::UnknownOpcode(0x03))));
    assert!(matches!(Program::try_from(&[0x20, 0x00][..]), Err(DecodeError::MissingOperand(0x20))));
}

#[test]
fn cursor_moves_past_each_instruction() {
    let program = [0xA9, 0x23, 0x8D, 0x00, 0x02, 0x00, 0x02];
    let mut cursor = 0;
    let first = Instruction::from_iter(&program, &mut cursor).unwrap().unwrap();
    assert_eq!((first.opcode.mnemonic, first.operand, cursor), (Mnemonic::LDA, Operand::Word(0x23), 2));
    let second = Instruction::from_iter(&program, &mut cursor).unwrap().unwrap();
    assert_eq!(
        (second.opcode.mnemonic, second.operand, cursor),
        (Mnemonic::STA, Operand::DoubleWord(0x0200), 5)
    );
    let third = Instruction::from_iter(&program, &mut cursor).unwrap().unwrap();
    assert_eq!((third.opcode.mnemonic, third.operand, cursor), (Mnemonic::BRK, Operand::Nothing, 6));
    // a byte that is no opcode leaves the cursor
    assert_eq!(Instruction::from_iter(&program, &mut cursor), Err(DecodeError::UnknownOpcode(0x02)));
    assert_eq!(cursor, 6);
    // at the end there is nothing more
    cursor = 7;
    assert_eq!(Instruction::from_iter(&program, &mut cursor), Ok(None));
    assert_eq!(cursor, 7);
    cursor = 100;
    assert_eq!(Instruction::from_iter(&program, &mut cursor), Ok(None));
    assert_eq!(cursor, 100);
}

#[test]
fn programs_of_assembler_instructions() {
    let program = disassemble(&[0xA9, 0x23, 0x9D, 0x00, 0x02, 0x0A, 0x00]).unwrap();
    assert_eq!(program.start, 0);
    let expected = [
        (Mnemonic::LDA, Operand::Word(0x23), AddressMode::Immediate),
        (Mnemonic::STA, Operand::DoubleWord(0x0200), AddressMode::AbsoluteX),
        (Mnemonic::ASL, Operand::Nothing, AddressMode::Accumulator),
        (Mnemonic::BRK, Operand::Nothing, AddressMode::Implicit),
    ];
    assert_eq!(program.code.len(), expected.len());
    for (found, (mnemonic, operand, mode)) in program.code.iter().zip(expected) {
        assert_eq!((found.mnemonic, found.operand, found.mode), (mnemonic, operand, mode));
    }
    assert_eq!(program.to_string(), "LDA #23\nSTA $0200,X\nASL A\nBRK\n");
    assert_eq!(program.code[1].to_string(), "STA $0200,X");
}

#[test]
fn text_of_a_program_reads_back() {
    let bytes = [0xA9, 0x23, 0x85, 0x10, 0x9D, 0x00, 0x02, 0xA1, 0x20, 0xB5, 0x21, 0x0A, 0x60];
    let program = disassemble(&bytes).unwrap();
    let read: Program = program.to_string().parse().unwrap();
    assert_eq!(read.code, program.code);
}

#[test]
fn programs_from_text() {
    let program = parse_assembly("  LDA #10 ; load\n\tsta $0200,x\n\n; nothing\nrts").unwrap();
    assert_eq!(program.start, 0);
    assert_eq!(program.to_string(), "LDA #10\nSTA $0200,X\nRTS\n");

    assert!(parse_assembly("").unwrap().code.is_empty());
    assert!("\n\n".parse::<Program>().unwrap().code.is_empty());

    // what follows an instruction and is no comment is an error at that place
    assert!(matches!(
        parse_assembly("LDA #10\nTAX what\n"),
        Err(TextError { offset: 12, code: ErrorKind::Eof })
    ));
    assert!(matches!(
        "NOP\nXYZ\n".parse::<Program>(),
        Err(TextError { offset: 4, code: ErrorKind::Eof })
    ));
}
