use rcn::codes::TagType;
use rcn::error::{DecodeError, Field};
use rcn::strs::{StrIter, StrRef};
use rcn::tag::{TagIter, TagRef, TAG_HEADER_LENGTH};

fn record(code: u8, payload: &[u8]) -> Vec<u8> {
    let mut v = vec![code, (payload.len() >> 8) as u8, payload.len() as u8];
    v.extend_from_slice(payload);
    v
}

#[test]
fn tag_header_is_three_bytes() {
    assert_eq!(TAG_HEADER_LENGTH, 3);
}

#[test]
fn tag_is_read_with_its_payload() {
    let data = [0x02, 0x00, 0x03, b'a', b'b', b'c', 0xee, 0xee];
    let tag = TagRef::parse_from(&data).unwrap();
    assert_eq!(tag.tag_code(), 0x02);
    assert_eq!(tag.tag_type(), Some(TagType::FILENAME));
    assert_eq!(tag.payload(), b"abc");
}

#[test]
fn tag_length_is_big_endian() {
    let mut data = vec![0x06, 0x01, 0x02];
    data.extend(std::iter::repeat(7u8).take(0x0102));
    let tag = TagRef::parse_from(&data).unwrap();
    assert_eq!(tag.payload().len(), 0x0102);
    assert_eq!(tag.tag_type(), Some(TagType::RTPINFO));
}

#[test]
fn tag_with_unknown_code_keeps_its_payload() {
    let data = [0x7f, 0x00, 0x02, 1, 2];
    let tag = TagRef::parse_from(&data).unwrap();
    assert_eq!(tag.tag_code(), 0x7f);
    assert_eq!(tag.tag_type(), None);
    assert_eq!(tag.payload(), &[1, 2]);
}

#[test]
fn tag_with_empty_payload_is_accepted() {
    let tag = TagRef::parse_from(&[0x01, 0x00, 0x00]).unwrap();
    assert_eq!(tag.tag_type(), Some(TagType::MEDIAINFO));
    assert!(tag.payload().is_empty());
}

#[test]
fn tag_shorter_than_its_header_is_rejected() {
    for n in 0..3usize {
        let data = vec![1u8; n];
        assert!(matches!(
            TagRef::parse_from(&data),
            Err(DecodeError::TooShort { field: Field::Tag, need: 3, have }) if have == n
        ));
    }
}

#[test]
fn tag_with_overrunning_length_is_rejected() {
    let data = [0x01, 0x00, 0x05, 1, 2, 3, 4];
    assert!(matches!(
        TagRef::parse_from(&data),
        Err(DecodeError::LengthOverrun { field: Field::Tag, declared: 5, available: 4 })
    ));
}

#[test]
fn tag_run_yields_each_record_in_order() {
    let records: Vec<(u8, Vec<u8>)> = vec![
        (0x02, b"one".to_vec()),
        (0x06, vec![]),
        (0x55, vec![9; 300]),
        (0x01, vec![0, 0, 0, 0]),
        (0x02, b"five".to_vec()),
    ];
    for n in 0..=records.len() {
        let mut data = Vec::new();
        for (code, payload) in &records[..n] {
            data.extend(record(*code, payload));
        }
        let mut it = TagIter::new(&data);
        for (code, payload) in &records[..n] {
            let tag = it.next().unwrap().unwrap();
            assert_eq!(tag.tag_code(), *code);
            assert_eq!(tag.payload(), &payload[..]);
        }
        assert!(it.next().is_none());
        assert!(it.next().is_none());

        let all = TagIter::new(&data).collect();
        assert_eq!(all.len(), n);
        for (item, (code, payload)) in all.iter().zip(&records[..n]) {
            let tag = item.as_ref().unwrap();
            assert_eq!(tag.tag_code(), *code);
            assert_eq!(tag.payload(), &payload[..]);
        }
    }
}

#[test]
fn tag_run_over_nothing_is_empty() {
    let mut it = TagIter::new(&[]);
    assert!(it.next().is_none());
    assert!(TagIter::new(&[]).collect().is_empty());
}

#[test]
fn tag_run_stops_at_the_first_failure() {
    let mut data = record(0x02, b"ok");
    data.extend_from_slice(&[0x06, 0x01, 0x00, 1, 2]); // declares 256
    data.extend(record(0x02, b"never"));
    let mut it = TagIter::new(&data);
    assert_eq!(it.next().unwrap().unwrap().payload(), b"ok");
    assert!(matches!(
        it.next(),
        Some(Err(DecodeError::LengthOverrun { field: Field::Tag, declared: 256, available: 10 }))
    ));
    assert!(it.next().is_none());

    let all = TagIter::new(&data).collect();
    assert_eq!(all.len(), 2);
    assert!(all[0].is_ok());
    assert!(all[1].is_err());
}

#[test]
fn tag_run_reports_a_truncated_header() {
    let mut data = record(0x02, b"ok");
    data.extend_from_slice(&[0x06, 0x00]);
    let all = TagIter::new(&data).collect();
    assert_eq!(all.len(), 2);
    assert!(matches!(
        all[1],
        Err(DecodeError::TooShort { field: Field::Tag, need: 3, have: 2 })
    ));
}

#[test]
fn copied_tag_cursor_starts_over() {
    let mut data = record(1, b"a");
    data.extend(record(2, b"b"));
    let start = TagIter::new(&data);
    let mut first = start;
    assert_eq!(first.next().unwrap().unwrap().tag_code(), 1);
    assert_eq!(first.next().unwrap().unwrap().tag_code(), 2);
    assert!(first.next().is_none());
    let mut second = start.clone();
    assert_eq!(second.next().unwrap().unwrap().tag_code(), 1);
}

#[test]
fn str_ref_reads_up_to_the_terminator() {
    let (n, s) = StrRef::from_str_null(b"hello\0rest").unwrap();
    assert_eq!(n, 6);
    assert_eq!(s.as_bytes(), b"hello");
    assert_eq!(s.to_utf8(), Some("hello"));

    let (n, s) = StrRef::from_str_null(b"\0").unwrap();
    assert_eq!(n, 1);
    assert!(s.as_bytes().is_empty());
    assert_eq!(s.to_utf8(), Some(""));
}

#[test]
fn str_ref_without_terminator_is_none() {
    assert!(StrRef::from_str_null(b"hello").is_none());
    assert!(StrRef::from_str_null(b"").is_none());
}

#[test]
fn str_ref_that_is_not_utf8_has_no_text() {
    let (_, s) = StrRef::from_str_null(&[0xc3, 0x28, 0x00]).unwrap();
    assert_eq!(s.as_bytes(), &[0xc3, 0x28]);
    assert_eq!(s.to_utf8(), None);
}

#[test]
fn str_run_yields_each_string() {
    let mut it = StrIter::new(b"a\0bc\0\0def\0");
    assert_eq!(it.next(), Some(&b"a"[..]));
    assert_eq!(it.next(), Some(&b"bc"[..]));
    assert_eq!(it.next(), Some(&b""[..]));
    assert_eq!(it.next(), Some(&b"def"[..]));
    assert_eq!(it.next(), None);
    assert_eq!(it.next(), None);

    let all = StrIter::new(b"a\0bc\0\0def\0").collect();
    assert_eq!(all, vec![&b"a"[..], &b"bc"[..], &b""[..], &b"def"[..]]);
}

#[test]
fn str_run_drops_an_unterminated_tail() {
    let mut it = StrIter::new(b"a\0tail");
    assert_eq!(it.next(), Some(&b"a"[..]));
    assert_eq!(it.next(), None);
    assert_eq!(it.next(), None);
    assert_eq!(StrIter::new(b"a\0tail").collect(), vec![&b"a"[..]]);
    assert!(StrIter::new(b"tail").collect().is_empty());
    assert!(StrIter::new(b"").collect().is_empty());
}
