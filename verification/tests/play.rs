use rcn::error::{DecodeError, Field};
use rcn::play::{CancelRef, FilenameRef, PlayAckRef, PlayRef, ResFromTagRef};

fn record(code: u8, payload: &[u8]) -> Vec<u8> {
    let mut v = vec![code, (payload.len() >> 8) as u8, payload.len() as u8];
    v.extend_from_slice(payload);
    v
}

#[test]
fn play_is_read() {
    let mut data = vec![
        0x00, 0x00, 0x03, 0xe8, // interval 1000
        0x00, 0x02, // play times
        0x00, 0x00, 0xea, 0x60, // max duration 60000
        0x0f, 0xff, // key mask
        1, 0, 1, // record, speech barge, erase dtmf
        2, // tags
    ];
    data.extend(record(0x02, b"\x01hello.wav\0"));
    data.extend(record(0x02, b"\x02bye.wav\0"));
    let r = PlayRef::parse_from(&data).unwrap();
    assert_eq!(r.part1().interval(), 1000);
    assert_eq!(r.part1().play_times(), 2);
    assert_eq!(r.part1().max_duration(), 60000);
    assert_eq!(r.part1().key_mask(), 0x0fff);
    assert!(r.part1().record());
    assert!(!r.part1().speech_barge());
    assert!(r.part1().erase_dtmf());
    assert_eq!(r.part1().num_tlv(), 2);

    let tags = r.tags().collect();
    assert_eq!(tags.len(), 2);
    let f = FilenameRef::parse_from(tags[0].as_ref().unwrap().payload()).unwrap();
    assert_eq!(f.format(), 1);
    assert_eq!(f.filename().as_bytes(), b"hello.wav");
    let f = FilenameRef::parse_from(tags[1].as_ref().unwrap().payload()).unwrap();
    assert_eq!(f.format(), 2);
    assert_eq!(f.filename().to_utf8(), Some("bye.wav"));
}

#[test]
fn play_numbers_are_big_endian() {
    let data = [
        0x01, 0x02, 0x03, 0x04, 0x05, 0x06, 0x07, 0x08, 0x09, 0x0a, 0x0b, 0x0c, 0, 2, 0, 0x0d,
    ];
    let r = PlayRef::parse_from(&data).unwrap();
    assert_eq!(r.part1().interval(), 0x0102_0304);
    assert_eq!(r.part1().play_times(), 0x0506);
    assert_eq!(r.part1().max_duration(), 0x0708_090a);
    assert_eq!(r.part1().key_mask(), 0x0b0c);
    assert!(!r.part1().record());
    assert!(r.part1().speech_barge());
    assert!(!r.part1().erase_dtmf());
    assert_eq!(r.part1().num_tlv(), 0x0d);
    assert!(r.tags().collect().is_empty());
}

#[test]
fn play_too_short_is_rejected() {
    for n in 0..16usize {
        let data = vec![0u8; n];
        assert!(matches!(
            PlayRef::parse_from(&data),
            Err(DecodeError::TooShort { field: Field::Play, need: 16, have }) if have == n
        ));
    }
}

#[test]
fn play_ack_is_read() {
    let mut data = vec![3, 0x00, 0x01, 0x86, 0xa0];
    data.extend(record(0x99, &[1, 2, 3]));
    let r = PlayAckRef::parse_from(&data).unwrap();
    assert_eq!(r.part1().result(), 3);
    assert_eq!(r.part1().play_duration(), 100_000);
    let tags = r.tags().collect();
    assert_eq!(tags.len(), 1);
    assert_eq!(tags[0].as_ref().unwrap().tag_code(), 0x99);
    assert_eq!(tags[0].as_ref().unwrap().tag_type(), None);
}

#[test]
fn play_ack_too_short_is_rejected() {
    for n in 0..5usize {
        let data = vec![0u8; n];
        assert!(matches!(
            PlayAckRef::parse_from(&data),
            Err(DecodeError::TooShort { field: Field::PlayAck, need: 5, have }) if have == n
        ));
    }
    assert!(PlayAckRef::parse_from(&[0u8; 5]).is_ok());
}

#[test]
fn filename_is_read() {
    let f = FilenameRef::parse_from(b"\x03/var/a.pcm\0junk").unwrap();
    assert_eq!(f.format(), 3);
    assert_eq!(f.filename().as_bytes(), b"/var/a.pcm");
}

#[test]
fn filename_on_empty_buffer_is_rejected() {
    assert!(matches!(
        FilenameRef::parse_from(&[]),
        Err(DecodeError::TooShort { field: Field::Filename, need: 1, have: 0 })
    ));
}

#[test]
fn filename_without_terminator_is_rejected() {
    assert!(matches!(
        FilenameRef::parse_from(b"\x03abc"),
        Err(DecodeError::MissingTerminator { field: Field::Filename })
    ));
    assert!(matches!(
        FilenameRef::parse_from(&[3]),
        Err(DecodeError::MissingTerminator { field: Field::Filename })
    ));
}

#[test]
fn cancel_names_the_cancelled_code() {
    let c = CancelRef::parse_from(&[0x00, 0x03, 0xff]).unwrap();
    assert_eq!(c.op_code(), 0x0003);
    let c = CancelRef::parse_from(&[0xff, 0x01]).unwrap();
    assert_eq!(c.op_code(), 0xff01);
}

#[test]
fn cancel_too_short_is_rejected() {
    for n in 0..2usize {
        let data = vec![0u8; n];
        assert!(matches!(
            CancelRef::parse_from(&data),
            Err(DecodeError::TooShort { field: Field::Cancel, need: 2, have }) if have == n
        ));
    }
}

#[test]
fn res_from_tag_is_read() {
    let r = ResFromTagRef::parse_from(b"result text\0more").unwrap();
    assert_eq!(r.as_bytes(), b"result text");
    assert_eq!(r.to_utf8(), Some("result text"));
    let r = ResFromTagRef::parse_from(&[0xff, 0x00]).unwrap();
    assert_eq!(r.as_bytes(), &[0xff]);
    assert_eq!(r.to_utf8(), None);
}

#[test]
fn res_from_tag_on_empty_buffer_is_rejected() {
    assert!(matches!(
        ResFromTagRef::parse_from(&[]),
        Err(DecodeError::TooShort { field: Field::ResFromTag, need: 1, have: 0 })
    ));
}

#[test]
fn res_from_tag_without_terminator_is_rejected() {
    assert!(matches!(
        ResFromTagRef::parse_from(b"abc"),
        Err(DecodeError::MissingTerminator { field: Field::ResFromTag })
    ));
}
