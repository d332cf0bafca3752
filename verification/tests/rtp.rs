use rcn::error::{DecodeError, Field};
use rcn::rtp::{
    CloseRtpConnect, CloseRtpConnectAck, CountPolicy, OpenRtpConnectAck, OpenRtpConnectRef,
    RtpInfoRef,
};
use rcn::tag::TagRef;

fn record(code: u8, payload: &[u8]) -> Vec<u8> {
    let mut v = vec![code, (payload.len() >> 8) as u8, payload.len() as u8];
    v.extend_from_slice(payload);
    v
}

fn rtp_info(port: u16, attribute: &[u8], tail: &[u8]) -> Vec<u8> {
    let mut v = vec![10, 1, 2, 3, (port >> 8) as u8, port as u8, 0, 8, 96];
    v.extend_from_slice(attribute);
    v.push(0);
    v.extend_from_slice(&[101, 2]);
    v.extend_from_slice(tail);
    v
}

#[test]
fn rtp_info_is_read() {
    let data = rtp_info(40000, b"rtpmap", b"a=x\0b=y\0");
    let r = RtpInfoRef::parse_from(&data).unwrap();
    assert_eq!(r.part1().ip(), [10, 1, 2, 3]);
    assert_eq!(r.part1().port(), 40000);
    assert_eq!(r.part1().media_type(), 0);
    assert_eq!(r.part1().internal_pltyp(), 8);
    assert_eq!(r.part1().nego_pltyp(), 96);
    assert_eq!(r.attribute(), b"rtpmap");
    assert_eq!(r.part2().tele_event(), 101);
    assert_eq!(r.part2().direction(), 2);
    assert_eq!(r.desc().collect(), vec![&b"a=x"[..], &b"b=y"[..]]);
}

#[test]
fn rtp_info_too_short_is_rejected() {
    for n in 0..18usize {
        let data = vec![0u8; n];
        assert!(matches!(
            RtpInfoRef::parse_from(&data),
            Err(DecodeError::TooShort { field: Field::RtpInfo, need: 18, have }) if have == n
        ));
    }
}

#[test]
fn rtp_info_of_least_size() {
    let data = rtp_info(1, b"", b"tail\0x");
    assert_eq!(data.len(), 18);
    let r = RtpInfoRef::parse_from(&data).unwrap();
    assert_eq!(r.attribute(), b"");
    assert_eq!(r.desc().collect(), vec![&b"tail"[..]]);
}

#[test]
fn rtp_info_without_attribute_terminator_is_rejected() {
    let data = [1u8; 30];
    assert!(matches!(
        RtpInfoRef::parse_from(&data),
        Err(DecodeError::MissingTerminator { field: Field::RtpInfoAttribute })
    ));
}

#[test]
fn rtp_info_with_short_second_part_is_rejected() {
    let mut data = vec![1u8; 9];
    data.extend_from_slice(b"attribute\0");
    data.push(5);
    assert!(data.len() >= 18);
    assert!(matches!(
        RtpInfoRef::parse_from(&data),
        Err(DecodeError::TooShort { field: Field::RtpInfoPart2, need: 2, have: 1 })
    ));
}

#[test]
fn open_rtp_connect_iterates_its_infos() {
    let first = rtp_info(5000, b"audio", b"sendrecv\0");
    let second = rtp_info(5002, b"video", b"sendonly\0");
    let mut data = vec![2];
    data.extend(record(0x06, &first));
    data.extend(record(0x06, &second));

    let r = OpenRtpConnectRef::parse_from(&data).unwrap();
    assert_eq!(r.num_tags(), 2);
    assert_eq!(r.check_tag_count(CountPolicy::Tolerate), Ok(true));
    assert_eq!(r.check_tag_count(CountPolicy::Enforce), Ok(true));

    let mut it = r.rtpinfo_iter();
    let a = it.next().unwrap().unwrap();
    assert_eq!(a.part1().port(), 5000);
    assert_eq!(a.attribute(), b"audio");
    let b = it.next().unwrap().unwrap();
    assert_eq!(b.part1().port(), 5002);
    assert_eq!(b.attribute(), b"video");
    assert!(it.next().is_none());

    // A second cursor starts at the front again.
    let all = r.rtpinfo_iter().collect();
    assert_eq!(all.len(), 2);
    assert_eq!(all[1].as_ref().unwrap().desc().collect(), vec![&b"sendonly"[..]]);
    assert_eq!(r.tag_iter().collect().len(), 2);
}

#[test]
fn open_rtp_connect_goes_by_the_bytes_not_by_the_count() {
    let info = rtp_info(5000, b"audio", b"sendrecv\0");
    let mut data = vec![5];
    data.extend(record(0x06, &info));
    let r = OpenRtpConnectRef::parse_from(&data).unwrap();
    assert_eq!(r.num_tags(), 5);
    assert_eq!(r.check_tag_count(CountPolicy::Tolerate), Ok(false));
    assert_eq!(
        r.check_tag_count(CountPolicy::Enforce),
        Err(DecodeError::TagCountMismatch { count: 5, tags: 1 })
    );
    assert_eq!(r.rtpinfo_iter().collect().len(), 1);
}

#[test]
fn open_rtp_connect_without_tags() {
    let r = OpenRtpConnectRef::parse_from(&[0]).unwrap();
    assert_eq!(r.num_tags(), 0);
    assert_eq!(r.check_tag_count(CountPolicy::Enforce), Ok(true));
    assert!(r.rtpinfo_iter().next().is_none());
    assert!(r.rtpinfo_iter().collect().is_empty());
}

#[test]
fn open_rtp_connect_on_empty_buffer_is_rejected() {
    assert!(matches!(
        OpenRtpConnectRef::parse_from(&[]),
        Err(DecodeError::TooShort { field: Field::OpenRtpConnect, need: 1, have: 0 })
    ));
}

#[test]
fn open_rtp_connect_reports_a_tag_of_another_kind() {
    let info = rtp_info(5000, b"audio", b"sendrecv\0");
    let mut data = vec![2];
    data.extend(record(0x02, b"\x01name\0"));
    data.extend(record(0x06, &info));
    let all = OpenRtpConnectRef::parse_from(&data).unwrap().rtpinfo_iter().collect();
    assert_eq!(all.len(), 2);
    assert!(matches!(all[0], Err(DecodeError::UnexpectedTag { expected: 0x06, found: 0x02 })));
    assert_eq!(all[1].as_ref().unwrap().part1().port(), 5000);
}

#[test]
fn open_rtp_connect_reports_a_malformed_info() {
    let mut data = vec![1];
    data.extend(record(0x06, &[1, 2, 3]));
    let all = OpenRtpConnectRef::parse_from(&data).unwrap().rtpinfo_iter().collect();
    assert_eq!(all.len(), 1);
    assert!(matches!(
        all[0],
        Err(DecodeError::TooShort { field: Field::RtpInfo, need: 18, have: 3 })
    ));
}

#[test]
fn open_rtp_connect_ends_at_a_tag_that_does_not_frame() {
    let info = rtp_info(5000, b"audio", b"sendrecv\0");
    let mut data = vec![2];
    data.extend(record(0x06, &info));
    data.extend_from_slice(&[0x06, 0xff, 0xff, 1, 2, 3]);
    let mut it = OpenRtpConnectRef::parse_from(&data).unwrap().rtpinfo_iter();
    assert!(it.next().unwrap().is_ok());
    assert!(matches!(
        it.next(),
        Some(Err(DecodeError::LengthOverrun { field: Field::Tag, declared: 0xffff, available: 3 }))
    ));
    assert!(it.next().is_none());
}

#[test]
fn rtp_info_from_a_tag_run_item() {
    let info = rtp_info(7, b"x", b"abcdef\0");
    let bytes = record(0x06, &info);
    let tag = TagRef::parse_from(&bytes).unwrap();
    assert_eq!(RtpInfoRef::from_tag(Ok(tag)).unwrap().part1().port(), 7);
    let e = DecodeError::TooShort { field: Field::Tag, need: 3, have: 1 };
    assert!(matches!(RtpInfoRef::from_tag(Err(e)), Err(x) if x == e));
}

#[test]
fn single_byte_messages_are_read() {
    assert_eq!(OpenRtpConnectAck::parse_from(&[7, 8]).unwrap().value(), 7);
    assert_eq!(CloseRtpConnect::parse_from(&[0]).unwrap().value(), 0);
    assert_eq!(CloseRtpConnectAck::parse_from(&[255]).unwrap().value(), 255);
}

#[test]
fn single_byte_messages_on_empty_buffer_are_rejected() {
    assert!(matches!(
        OpenRtpConnectAck::parse_from(&[]),
        Err(DecodeError::TooShort { field: Field::OpenRtpConnectAck, need: 1, have: 0 })
    ));
    assert!(matches!(
        CloseRtpConnect::parse_from(&[]),
        Err(DecodeError::TooShort { field: Field::CloseRtpConnect, need: 1, have: 0 })
    ));
    assert!(matches!(
        CloseRtpConnectAck::parse_from(&[]),
        Err(DecodeError::TooShort { field: Field::CloseRtpConnectAck, need: 1, have: 0 })
    ));
}
