use nes_rs::cpu::decomp::decompile_to_string;

#[test]
fn test_print_decompilation() {
    // LDA #23
    // BRK
    let program = &[0xA9, 0x23, 0x00];
    let decomp =
        decompile_to_string(program).expect("Failed to unwrap in test_print_decompilation.");
    assert_eq!(decomp, "LDA #23\nBRK");
}
