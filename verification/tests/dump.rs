use nes_rs::memory::{fmt_hexdump_line, make_word, split_word, MemoryMap, SimpleMap};
use nes_rs::text::{digit_char, push_decimal, push_hex_byte, push_hex_word, push_upper_hex_byte, push_upper_hex_word};

#[test]
fn hexdump_lines() {
    let numbers: Vec<u8> = (0x00..0x10).collect();
    assert_eq!(
        fmt_hexdump_line(None, &numbers),
        "     | 00 01 02 03  04 05 06 07  08 09 0A 0B  0C 0D 0E 0F | ................ |"
    );
    assert_eq!(
        fmt_hexdump_line(Some(0x0010), b"Hello, world!"),
        "0010 | 48 65 6C 6C  6F 2C 20 77  6F 72 6C 64  21 | Hello, world!    |"
    );
    assert_eq!(
        fmt_hexdump_line(Some(0xABCD), &[0x1F, 0x20, 0x7E, 0x7F, 0x80, 0xFF]),
        "ABCD | 1F 20 7E 7F  80 FF | . ~...           |"
    );
    assert_eq!(fmt_hexdump_line(None, &[0x41]), "     | 41 | A |");
    assert_eq!(fmt_hexdump_line(None, &[]), "     |  |  |");
    assert_eq!(fmt_hexdump_line(Some(0), &[]), "0000 |  |                  |");
    // four bytes end with the gap of their group
    assert_eq!(fmt_hexdump_line(None, b"abcd"), "     | 61 62 63 64  | abcd |");
    // more than sixteen bytes are written out, and nothing is padded
    assert_eq!(
        fmt_hexdump_line(Some(0x00FF), b"0123456789abcdefg"),
        "00FF | 30 31 32 33  34 35 36 37  38 39 61 62  63 64 65 66 67 | 0123456789abcdefg |"
    );
}

#[test]
fn dump_of_a_small_map() {
    let mut mem = SimpleMap::<0x24>::default();
    mem.load(0x10, b"0123456789ABCDEF");
    mem.write_u8(0x23, 0xFF);
    let header = "     | 00 01 02 03  04 05 06 07  08 09 0A 0B  0C 0D 0E 0F | ................ |";
    let expected = format!(
        "\n{}\n{}\n{}\n{}\n{}",
        header,
        "-".repeat(header.len()),
        "0000 | 00 00 00 00  00 00 00 00  00 00 00 00  00 00 00 00 | ................ |",
        "0010 | 30 31 32 33  34 35 36 37  38 39 41 42  43 44 45 46 | 0123456789ABCDEF |",
        "0020 | 00 00 00 FF  | ....             |",
    );
    assert_eq!(mem.dump(), expected);

    let empty = SimpleMap::<0>::default();
    assert_eq!(empty.dump(), format!("\n{}\n{}\n", header, "-".repeat(header.len())));
}

#[test]
fn dump_of_the_whole_address_space() {
    let mut mem = SimpleMap::<0x10000>::default();
    mem.load(0xFFF0, b"the last line...");
    let text = mem.dump();
    let lines: Vec<&str> = text.split('\n').collect();
    assert_eq!(lines.len(), 3 + 4096);
    assert_eq!(lines[0], "");
    assert_eq!(
        lines[3],
        "0000 | 00 00 00 00  00 00 00 00  00 00 00 00  00 00 00 00 | ................ |"
    );
    assert_eq!(
        lines[3 + 4095],
        "FFF0 | 74 68 65 20  6C 61 73 74  20 6C 69 6E  65 2E 2E 2E | the last line... |"
    );
}

#[test]
fn words_and_bytes() {
    assert_eq!(make_word(0x34, 0x12), 0x1234);
    assert_eq!(split_word(0x1234), (0x34, 0x12));
    for value in [0x0000u16, 0x00FF, 0x0100, 0xFFFF, 0x8001] {
        let (lo, hi) = split_word(value);
        assert_eq!([lo, hi], value.to_le_bytes());
        assert_eq!(make_word(lo, hi), value);
    }
}

#[test]
fn loading_keeps_the_other_cells() {
    let mut mem = SimpleMap::<8>::default();
    mem.load(0, &[1, 2, 3, 4, 5, 6, 7, 8]);
    mem.load(2, &[0xAA, 0xBB]);
    assert_eq!(mem.0, [1, 2, 0xAA, 0xBB, 5, 6, 7, 8]);
    mem.load(8, &[]);
    mem.load(7, &[0xCC]);
    assert_eq!(mem.0, [1, 2, 0xAA, 0xBB, 5, 6, 7, 0xCC]);
    mem.write_u16(3, 0xBEEF);
    assert_eq!(mem.0, [1, 2, 0xAA, 0xEF, 0xBE, 6, 7, 0xCC]);
    assert_eq!(mem.read_u16(3), 0xBEEF);
}

#[test]
fn digits_and_numbers() {
    let digits: String = (0..16).map(|n| digit_char(n, false)).collect();
    assert_eq!(digits, "0123456789abcdef");
    let digits: String = (0..16).map(|n| digit_char(n, true)).collect();
    assert_eq!(digits, "0123456789ABCDEF");
    for value in 0..=255u8 {
        let mut out = String::from("x");
        push_hex_byte(&mut out, value);
        assert_eq!(out, format!("x{:02x}", value));
        let mut out = String::new();
        push_upper_hex_byte(&mut out, value);
        assert_eq!(out, format!("{:02X}", value));
        let mut out = String::from("*+");
        push_decimal(&mut out, value);
        assert_eq!(out, format!("*{:+}", value));
    }
    for value in [0x0000u16, 0x0001, 0x00FF, 0x0100, 0x0ABC, 0xFFFF, 0x1234] {
        let mut out = String::new();
        push_hex_word(&mut out, value);
        assert_eq!(out, format!("{:04x}", value));
        let mut out = String::new();
        push_upper_hex_word(&mut out, value);
        assert_eq!(out, format!("{:04X}", value));
    }
}
