use rcn::wire::{find_str_null, read_i16, read_i32, read_u16, read_u32, read_u8};

#[test]
fn find_str_null_reports_the_first_zero() {
    assert_eq!(find_str_null(b"abc\0def\0"), Some(3));
    assert_eq!(find_str_null(b"\0"), Some(0));
    assert_eq!(find_str_null(b"\0\0"), Some(0));
    assert_eq!(find_str_null(b"abc"), None);
    assert_eq!(find_str_null(b""), None);
}

#[test]
fn read_u8_advances_by_one() {
    let data = [7u8, 8];
    let mut buf = &data[..];
    assert_eq!(read_u8(&mut buf), Some(7));
    assert_eq!(buf, &[8]);
    assert_eq!(read_u8(&mut buf), Some(8));
    assert_eq!(read_u8(&mut buf), None);
    assert!(buf.is_empty());
}

#[test]
fn read_u16_is_big_endian_and_advances_by_two() {
    let data = [0x08u8, 0x09, 0xaa];
    let mut buf = &data[..];
    assert_eq!(read_u16(&mut buf), Some(0x0809));
    assert_eq!(buf, &[0xaa]);
    assert_eq!(read_u16(&mut buf), None);
    assert_eq!(buf, &[0xaa]);
}

#[test]
fn read_i16_is_signed() {
    let data = [0xffu8, 0xff, 0x80, 0x00, 0x7f, 0xff];
    let mut buf = &data[..];
    assert_eq!(read_i16(&mut buf), Some(-1));
    assert_eq!(read_i16(&mut buf), Some(i16::MIN));
    assert_eq!(read_i16(&mut buf), Some(i16::MAX));
    assert_eq!(read_i16(&mut buf), None);
}

#[test]
fn read_u32_is_big_endian_and_advances_by_four() {
    let data = [0x08u8, 0x09, 0xa0, 0xa1, 1, 2, 3];
    let mut buf = &data[..];
    assert_eq!(read_u32(&mut buf), Some(0x0809_a0a1));
    assert_eq!(buf, &[1, 2, 3]);
    assert_eq!(read_u32(&mut buf), None);
    assert_eq!(buf, &[1, 2, 3]);
}

#[test]
fn read_i32_is_signed() {
    let data = [0xffu8, 0xff, 0xff, 0xfe, 0x80, 0, 0, 0, 0x08, 0x09, 0xa0, 0xa1, 5];
    let mut buf = &data[..];
    assert_eq!(read_i32(&mut buf), Some(-2));
    assert_eq!(read_i32(&mut buf), Some(i32::MIN));
    assert_eq!(read_i32(&mut buf), Some(0x0809_a0a1));
    assert_eq!(read_i32(&mut buf), None);
    assert_eq!(buf, &[5]);
}
