use nes_rs::cpu::ops::nmos_6502_opcodes;

#[test]
fn test_no_duplicate_nmos_6502_ops() {
    let ops = nmos_6502_opcodes()
        .iter()
        .map(|op| op.code)
        .collect::<Vec<_>>();

    let mut sorted = ops.clone();
    sorted.sort();
    sorted.dedup();
    assert_eq!(sorted.len(), ops.len());
}
