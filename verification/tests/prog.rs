use nes_rs::prog::{Program, SNAKE_BYTES};

#[test]
fn test_disassemble_bytes() {
    // LDA #23
    // BRK
    let program = Program::try_from(&[0xA9, 0x23, 0x00][..]).unwrap();
    assert_eq!(format!("{}", program.to_string()), "LDA #23\nBRK\n");
}

#[test]
fn test_disassemble_snake() {
    // disassemble the snake program just check for exceptions
    // may later try to compare it against the source
    let _: Program = (&SNAKE_BYTES[..]).try_into().unwrap();
}
