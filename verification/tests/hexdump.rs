use rcn::hexdump::{
    decode_lines, decode_text, parse_decimal_u64, parse_hex_byte, parse_line, parse_line_bytes,
    split_lines, split_words, HexDumpError,
};
use rcn::message::MessageRef;
use rcn::packet::PacketRef;

#[test]
fn test_parse_line() {
    let mut buf = Vec::new();

    let offset = parse_line(
        "0\t00 35 00 01 00 2d c6 c2  00 00 80 00 00 00 3c 01 \t.5...-........<.",
        &mut buf,
    )
    .unwrap();
    assert_eq!(offset, 0);
    assert_eq!(
        &std::mem::take(&mut buf)[..],
        &[
            0x00, 0x35, 0x00, 0x01, 0x00, 0x2d, 0xc6, 0xc2, 0x00, 0x00, 0x80, 0x00, 0x00, 0x00,
            0x3c, 0x01
        ][..]
    );

    let offset = parse_line(
        "23\t00 35 00 01 00 2d c6 c2  00 00 80 00 00 00 3c 01 \t.5...-........<.",
        &mut buf,
    )
    .unwrap();
    assert_eq!(offset, 23);
    assert_eq!(
        &std::mem::take(&mut buf)[..],
        &[
            0x00, 0x35, 0x00, 0x01, 0x00, 0x2d, 0xc6, 0xc2, 0x00, 0x00, 0x80, 0x00, 0x00, 0x00,
            0x3c, 0x01
        ][..]
    );

    let offset = parse_line("12\t00 35       \t.5", &mut buf).unwrap();
    assert_eq!(offset, 12);
    assert_eq!(&std::mem::take(&mut buf)[..], &[0x00, 0x35][..]);
}

#[test]
fn parse_line_appends_to_what_is_there() {
    let mut buf = vec![0xee];
    assert_eq!(parse_line("4 0a 0B", &mut buf), Ok(4));
    assert_eq!(buf, vec![0xee, 0x0a, 0x0b]);
    assert_eq!(parse_line_bytes(b"6 ff", &mut buf), Ok(6));
    assert_eq!(buf, vec![0xee, 0x0a, 0x0b, 0xff]);
}

#[test]
fn line_without_a_word_has_no_offset() {
    let mut buf = Vec::new();
    assert_eq!(parse_line("", &mut buf), Err(HexDumpError::NoOffset));
    assert_eq!(parse_line(" \t  ", &mut buf), Err(HexDumpError::NoOffset));
    assert!(buf.is_empty());
}

#[test]
fn offset_that_is_no_number_is_a_mistake() {
    let mut buf = Vec::new();
    assert_eq!(parse_line("0x10 00 01", &mut buf), Err(HexDumpError::BadOffset));
    assert_eq!(parse_line("-1 00 01", &mut buf), Err(HexDumpError::BadOffset));
    assert_eq!(parse_line("18446744073709551616 00", &mut buf), Err(HexDumpError::BadOffset));
    assert!(buf.is_empty());
    assert_eq!(parse_line("18446744073709551615 00", &mut buf), Ok(u64::MAX));
    assert_eq!(buf, vec![0]);
}

#[test]
fn offset_alone_gives_no_bytes() {
    let mut buf = Vec::new();
    assert_eq!(parse_line("  32  ", &mut buf), Ok(32));
    assert!(buf.is_empty());
}

#[test]
fn bytes_end_at_the_first_word_of_another_length() {
    let mut buf = Vec::new();
    assert_eq!(parse_line("0 01 02 3 04", &mut buf), Ok(0));
    assert_eq!(buf, vec![1, 2]);
    buf.clear();
    assert_eq!(parse_line("0 01 0203 04", &mut buf), Ok(0));
    assert_eq!(buf, vec![1]);
}

#[test]
fn word_that_is_no_hex_is_a_mistake_except_in_third_place() {
    let mut buf = Vec::new();
    assert_eq!(parse_line("0 zz 01", &mut buf), Err(HexDumpError::BadByte { index: 0 }));
    assert!(buf.is_empty());

    assert_eq!(parse_line("0 01 zz", &mut buf), Err(HexDumpError::BadByte { index: 1 }));
    assert_eq!(buf, vec![1]);
    buf.clear();

    assert_eq!(parse_line("0 01 02 zz 03", &mut buf), Ok(0));
    assert_eq!(buf, vec![1, 2]);
    buf.clear();

    assert_eq!(parse_line("0 01 02 03 zz", &mut buf), Err(HexDumpError::BadByte { index: 3 }));
    assert_eq!(buf, vec![1, 2, 3]);
}

#[test]
fn hex_byte_reads_as_the_standard_library_does() {
    for a in 0..128u8 {
        for b in 0..128u8 {
            let word = [a, b];
            let text = std::str::from_utf8(&word).unwrap();
            assert_eq!(parse_hex_byte(&word), u8::from_str_radix(text, 16).ok(), "{:?}", text);
        }
    }
    assert_eq!(parse_hex_byte(b"ff"), Some(255));
    assert_eq!(parse_hex_byte(b"A0"), Some(160));
    assert_eq!(parse_hex_byte(b"+f"), Some(15));
    assert_eq!(parse_hex_byte(b"-f"), None);
    assert_eq!(parse_hex_byte(b".5"), None);
    assert_eq!(parse_hex_byte(&[0xc3, 0xa9]), None);
    assert_eq!(parse_hex_byte(b""), None);
    assert_eq!(parse_hex_byte(b"f"), None);
    assert_eq!(parse_hex_byte(b"0ff"), None);
}

#[test]
fn decimal_reads_as_the_standard_library_does() {
    let samples = [
        "", "+", "-", "0", "00", "007", "+0", "+12", "-12", "12a", "a12", "1 2", "12",
        "4294967296", "18446744073709551615", "18446744073709551616", "18446744073709551620",
        "99999999999999999999", "000000000000000000000000000001", "+18446744073709551615",
        "++1", "1+", "1.0", "１２",
    ];
    for text in samples {
        assert_eq!(parse_decimal_u64(text.as_bytes()), text.parse::<u64>().ok(), "{:?}", text);
    }
    assert_eq!(parse_decimal_u64(b"23"), Some(23));
    assert_eq!(parse_decimal_u64(b"+"), None);
}

#[test]
fn words_are_split_as_the_standard_library_does() {
    let samples = [
        "",
        " ",
        "a",
        "  a  ",
        "0\t00 35  c2 \t.5...",
        "a\u{00a0}b\u{0085}c\u{1680}d\u{2000}e\u{200a}f\u{2028}g\u{2029}h\u{202f}i\u{205f}j\u{3000}k",
        "\u{3000}\u{3000}x\u{3000}",
        "\u{200b}zero-width\u{200b}is no space",
        "é à\u{00a0}ü",
        "a\x0bb\x0cc\rd\ne",
        "\u{e000}\u{2000}\u{e280}",
        "tail\u{00a0}",
    ];
    for text in samples {
        let ours: Vec<&[u8]> = split_words(text.as_bytes());
        let theirs: Vec<&[u8]> = text.split_whitespace().map(|w| w.as_bytes()).collect();
        assert_eq!(ours, theirs, "{:?}", text);
    }
}

#[test]
fn every_single_character_is_split_as_the_standard_library_does() {
    let planes = (0..=0x2ffffu32).chain(0xe0000..=0xe0fff).chain(0x10ff00..=0x10ffff);
    for n in planes {
        if let Some(c) = char::from_u32(n) {
            let text = format!("a{}b", c);
            let ours = split_words(text.as_bytes()).len();
            let theirs = if c.is_whitespace() { 2 } else { 1 };
            assert_eq!(ours, theirs, "U+{:04X}", n);
        }
    }
}

#[test]
fn lines_are_split_at_line_feeds() {
    assert!(split_lines(b"").is_empty());
    assert_eq!(split_lines(b"a"), vec![&b"a"[..]]);
    assert_eq!(split_lines(b"a\n"), vec![&b"a"[..]]);
    assert_eq!(split_lines(b"a\nb"), vec![&b"a"[..], &b"b"[..]]);
    assert_eq!(split_lines(b"\n"), vec![&b""[..]]);
    assert_eq!(split_lines(b"\n\nb\n"), vec![&b""[..], &b""[..], &b"b"[..]]);
    assert_eq!(split_lines(b"a\r\nb"), vec![&b"a\r"[..], &b"b"[..]]);
}

#[test]
fn decode_text_reads_line_after_line() {
    let text = "\n0\t00 0c 00 13 00 00 00 09  00 00 00 01 00 03 \t..............\r\n\n   \n";
    let bytes = decode_text(text).unwrap();
    assert_eq!(bytes, vec![0x00, 0x0c, 0x00, 0x13, 0, 0, 0, 9, 0, 0, 0, 1, 0, 3]);

    let text = "0 00 0c 00 13 00 00 00 09\n8 00 00 00 01 00 03";
    assert_eq!(decode_text(text).unwrap(), bytes);

    let lines = ["0 00 0c 00 13 00 00 00 09", "", "8 00 00 00 01 00 03", "  "];
    assert_eq!(decode_lines(&lines).unwrap(), bytes);

    let packet = PacketRef::parse_from(&bytes).unwrap();
    assert!(matches!(MessageRef::of_packet(&packet), Ok(MessageRef::Cancel(c)) if c.op_code() == 3));
}

#[test]
fn decode_text_of_nothing_is_empty() {
    assert_eq!(decode_text(""), Ok(vec![]));
    assert_eq!(decode_text("\n \n\t\n"), Ok(vec![]));
    assert_eq!(decode_lines(&[]), Ok(vec![]));
}

#[test]
fn decode_text_fails_at_the_first_mistake() {
    assert_eq!(decode_text("0 00 01\nxx 02\n4 zz"), Err(HexDumpError::BadOffset));
    assert_eq!(decode_text("0 00 01\n2 0g\nxx 00"), Err(HexDumpError::BadByte { index: 0 }));
    assert_eq!(decode_lines(&["0 00", "1 01 0x"]), Err(HexDumpError::BadByte { index: 1 }));
}

#[test]
fn decode_text_agrees_with_lines_of_the_standard_library() {
    let texts = [
        "0 01 02\r\n2 03 04\r\n",
        "0 01 02\n\n\n2 03 04",
        "  0 01 02  \n\t2 03 04\t\n",
        "0 01\r2 02\n",
        "0 01 02 ab cd   ....\n4 05 .\n",
    ];
    for text in texts {
        let lines: Vec<&str> = text.lines().map(|l| l.trim()).filter(|l| !l.is_empty()).collect();
        assert_eq!(decode_text(text), decode_lines(&lines), "{:?}", text);
    }
    assert_eq!(decode_text("0 01\r2 02\n"), Ok(vec![1]));
}
