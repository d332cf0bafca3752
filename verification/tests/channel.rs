use rcn::channel::{RequestChannelAckRef, RequestChannelRef};
use rcn::error::{DecodeError, Field};

fn request(media_type: u8, middle: &[u8]) -> Vec<u8> {
    let mut v = vec![1, 0x01, 0x2c, media_type];
    v.extend_from_slice(middle);
    v.extend_from_slice(&[1, 20, 0, 8, 0x00, 0x07]);
    v
}

#[test]
fn request_channel_without_agora_info() {
    let mut data = request(1, b"call-1\0");
    data.extend_from_slice(b"ice-ufrag\0ice-pwd\0");
    let r = RequestChannelRef::parse_from(&data).unwrap();
    assert_eq!(r.part1().ice_type_code(), 1);
    assert_eq!(r.part1().life_seconds(), 300);
    assert_eq!(r.part1().media_type_code(), 1);
    assert_eq!(r.as_call_id(), b"call-1");
    assert_eq!(r.agora_info(), None);
    assert!(r.part2().is_nbup());
    assert_eq!(r.part2().ptime(), 20);
    assert!(!r.part2().is_caller());
    assert_eq!(r.part2().codec_code(), 8);
    assert_eq!(r.part2().amr_mode(), 7);
    assert_eq!(r.webrtc().collect(), vec![&b"ice-ufrag"[..], &b"ice-pwd"[..]]);
}

#[test]
fn request_channel_with_agora_info_for_media_type_four() {
    let data = request(4, b"id\0agora-token\0");
    let r = RequestChannelRef::parse_from(&data).unwrap();
    assert_eq!(r.as_call_id(), b"id");
    assert_eq!(r.agora_info(), Some(&b"agora-token"[..]));
    assert_eq!(r.part2().ptime(), 20);
    assert_eq!(r.part2().amr_mode(), 7);
    assert!(r.webrtc().collect().is_empty());
}

#[test]
fn request_channel_with_agora_info_for_media_type_seven() {
    let data = request(7, b"\0\0");
    let r = RequestChannelRef::parse_from(&data).unwrap();
    assert_eq!(r.as_call_id(), b"");
    assert_eq!(r.agora_info(), Some(&b""[..]));
    assert_eq!(r.part2().codec_code(), 8);
}

#[test]
fn other_media_types_expect_no_agora_info() {
    for media_type in 0..=255u8 {
        let data = request(media_type, b"id\0info\0");
        let r = RequestChannelRef::parse_from(&data).unwrap();
        if media_type == 4 || media_type == 7 {
            assert_eq!(r.agora_info(), Some(&b"info"[..]));
            assert_eq!(r.part2().ptime(), 20);
        } else {
            // Without the field the second part starts right after the call id.
            assert_eq!(r.agora_info(), None);
            assert_eq!(r.part2().is_nbup(), true);
            assert_eq!(r.part2().ptime(), b'n');
            assert_eq!(r.part2().codec_code(), b'o');
        }
    }
}

#[test]
fn request_channel_that_lacks_its_agora_info_is_rejected() {
    // What should be the second part is read as the agora info, up to its
    // first zero byte; too little is left behind it.
    let data = request(4, b"id\0");
    assert!(matches!(
        RequestChannelRef::parse_from(&data),
        Err(DecodeError::TooShort { field: Field::RequestChannelPart2, need: 6, have: 3 })
    ));
    let mut data = vec![0, 0, 0, 7];
    data.extend_from_slice(b"id\0abcdefghij");
    assert!(matches!(
        RequestChannelRef::parse_from(&data),
        Err(DecodeError::MissingTerminator { field: Field::AgoraInfo })
    ));
}

#[test]
fn request_channel_too_short_is_rejected() {
    for n in 0..12usize {
        let data = vec![0u8; n];
        assert!(matches!(
            RequestChannelRef::parse_from(&data),
            Err(DecodeError::TooShort { field: Field::RequestChannel, need: 12, have }) if have == n
        ));
    }
}

#[test]
fn request_channel_without_call_id_terminator_is_rejected() {
    let data = [1u8; 20];
    assert!(matches!(
        RequestChannelRef::parse_from(&data),
        Err(DecodeError::MissingTerminator { field: Field::AsCallId })
    ));
}

#[test]
fn request_channel_with_short_second_part_is_rejected() {
    let mut data = vec![0, 0, 0, 1];
    data.extend_from_slice(b"abcdef\0");
    data.extend_from_slice(&[1, 2, 3, 4, 5]);
    assert!(matches!(
        RequestChannelRef::parse_from(&data),
        Err(DecodeError::TooShort { field: Field::RequestChannelPart2, need: 6, have: 5 })
    ));
}

#[test]
fn request_channel_of_least_size() {
    let data = [2, 0xff, 0xff, 0, 0, 0, 0, 1, 0, 0x12, 0x34];
    assert_eq!(data.len(), 11);
    assert!(RequestChannelRef::parse_from(&data).is_err());
    let data = [2, 0xff, 0xff, 0, 0, 0, 0, 1, 0, 0x12, 0x34, b'x'];
    let r = RequestChannelRef::parse_from(&data).unwrap();
    assert_eq!(r.part1().ice_type_code(), 2);
    assert_eq!(r.part1().life_seconds(), 0xffff);
    assert!(!r.part2().is_nbup());
    assert!(r.part2().is_caller());
    assert_eq!(r.part2().amr_mode(), 0x1234);
    assert!(r.webrtc().collect().is_empty());
}

#[test]
fn request_channel_ack_is_read() {
    let mut data = vec![0, 0x13, 0x88, 0x13, 0x8a, 0x00, 0x00, 2];
    data.extend_from_slice(b"fingerprint\0setup\0");
    let r = RequestChannelAckRef::parse_from(&data).unwrap();
    assert_eq!(r.part1().result(), 0);
    assert_eq!(r.part1().audio_port(), 5000);
    assert_eq!(r.part1().video_port(), 5002);
    assert_eq!(r.part1().fax_port(), 0);
    assert_eq!(r.part1().media_type(), 2);
    assert_eq!(r.webrtc().collect(), vec![&b"fingerprint"[..], &b"setup"[..]]);
}

#[test]
fn request_channel_ack_too_short_is_rejected() {
    for n in 0..9usize {
        let data = vec![0u8; n];
        assert!(matches!(
            RequestChannelAckRef::parse_from(&data),
            Err(DecodeError::TooShort { field: Field::RequestChannelAck, need: 9, have }) if have == n
        ));
    }
    assert!(RequestChannelAckRef::parse_from(&[0u8; 9]).is_ok());
}
