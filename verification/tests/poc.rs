use rcn::hexdump::decode_text;
use rcn::message::MessageRef;
use rcn::packet::PacketRef;
use rcn::rtp::CountPolicy;

const REQUESTCHANNEL: &str = "\
0\t00 40 00 01 00 4c 4b 41  00 00 00 01 01 00 3c 01 \t.@...LKA......<.\n\
16\t63 61 6c 6c 2d 37 66 33  61 40 61 73 31 00 00 14 \tcall-7f3a@as1...\n\
32\t01 08 00 00 69 63 65 2d  75 66 72 61 67 3a 5a 6b \t....ice-ufrag:Zk\n\
48\t33 71 00 69 63 65 2d 70  77 64 3a 39 64 4a 32 6d \t3q.ice-pwd:9dJ2m\n\
64\t51 00 \tQ.\n\
";

const REQUESTCHANNEL_ACK: &str = "\
0\t00 34 00 02 00 4c 4b 41  00 00 00 01 00 75 30 00 \t.4...LKA.....u0.\n\
16\t00 00 00 01 66 69 6e 67  65 72 70 72 69 6e 74 3a \t....fingerprint:\n\
32\t73 68 61 2d 32 35 36 00  73 65 74 75 70 3a 70 61 \tsha-256.setup:pa\n\
48\t73 73 69 76 65 00 \tssive.\n\
";

const OPENRTPCONNECT: &str = "\
0\t00 6a 00 0d 00 4c 4b 41  00 00 00 01 02 06 00 30 \t.j...LKA.......0\n\
16\t0a 00 00 07 75 30 00 08  08 72 74 70 6d 61 70 3a \t....u0...rtpmap:\n\
32\t38 20 50 43 4d 41 2f 38  30 30 30 00 65 03 73 65 \t8.PCMA/8000.e.se\n\
48\t6e 64 72 65 63 76 00 70  74 69 6d 65 3a 32 30 00 \tndrecv.ptime:20.\n\
64\t06 00 29 0a 00 00 07 75  32 01 60 60 72 74 70 6d \t..)....u2.``rtpm\n\
80\t61 70 3a 39 36 20 48 32  36 34 2f 39 30 30 30 30 \tap:96.H264/90000\n\
96\t00 00 01 72 65 63 76 6f  6e 6c 79 00 \t...recvonly.\n\
";

const OPENRTPCONNECT_ACK: &str = "\
0\t00 0b 00 0e 00 4c 4b 41  00 00 00 01 00 \t.....LKA.....\n\
";

const RESFROMTAG: &str = "\
0\t00 16 00 2f 00 4c 4b 41  00 00 00 01 77 65 6c 63 \t.../.LKA....welc\n\
16\t6f 6d 65 2e 77 61 76 00  \tome.wav.\n\
";

const PLAY: &str = "\
0\t00 33 00 03 00 4c 4b 41  00 00 00 01 00 00 00 00 \t.3...LKA........\n\
16\t00 01 00 00 ea 60 0f ff  00 01 01 01 02 00 16 01 \t.....`..........\n\
32\t2f 76 61 72 2f 69 76 72  2f 77 65 6c 63 6f 6d 65 \t/var/ivr/welcome\n\
48\t2e 77 61 76 00 \t.wav.\n\
";

const CANCEL: &str = "\
0\t00 0c 00 13 00 4c 4b 41  00 00 00 01 00 03 \t.....LKA......\n\
";

const CLOSERTPCONNECT: &str = "\
0\t00 0b 00 11 00 4c 4b 41  00 00 00 01 00 \t.....LKA.....\n\
";

const RELEASECHANNEL: &str = "\
0\t00 0a 00 14 00 4c 4b 41  00 00 00 01 \t.....LKA....\n\
";

const CLOSERTPCONNECT_ACK: &str = "\
0\t00 0b 00 12 00 4c 4b 41  00 00 00 01 00 \t.....LKA.....\n\
";

const PLAY_ACK: &str = "\
0\t00 28 00 04 00 4c 4b 41  00 00 00 01 00 00 00 14 \t.(...LKA........\n\
16\t6e 02 00 16 01 2f 76 61  72 2f 69 76 72 2f 77 65 \tn..../var/ivr/we\n\
32\t6c 63 6f 6d 65 2e 77 61  76 00 \tlcome.wav.\n\
";

fn decode(dump: &str) -> Vec<u8> {
    let bytes = decode_text(dump).unwrap();
    let packet = PacketRef::parse_from(&bytes).unwrap();
    assert_eq!(packet.length() + 2, bytes.len());
    assert_eq!(packet.fsm_id(), 5_000_001);
    MessageRef::of_packet(&packet).unwrap();
    bytes
}

#[test]
fn poc() {
    decode(REQUESTCHANNEL);
    decode(REQUESTCHANNEL_ACK);
    decode(OPENRTPCONNECT);
    decode(OPENRTPCONNECT_ACK);
    decode(RESFROMTAG);
    decode(PLAY);
    decode(CANCEL);
    decode(CLOSERTPCONNECT);
    decode(RELEASECHANNEL);
    decode(CLOSERTPCONNECT_ACK);
    decode(PLAY_ACK);
}

#[test]
fn dumped_request_channel_decodes_to_its_fields() {
    let bytes = decode(REQUESTCHANNEL);
    let packet = PacketRef::parse_from(&bytes).unwrap();
    match MessageRef::of_packet(&packet).unwrap() {
        MessageRef::RequestChannel(r) => {
            assert_eq!(r.part1().ice_type_code(), 1);
            assert_eq!(r.part1().life_seconds(), 60);
            assert_eq!(r.part1().media_type_code(), 1);
            assert_eq!(r.as_call_id(), b"call-7f3a@as1");
            assert_eq!(r.agora_info(), None);
            assert_eq!(r.part2().ptime(), 20);
            assert!(r.part2().is_caller());
            assert_eq!(r.part2().codec_code(), 8);
            assert_eq!(
                r.webrtc().collect(),
                vec![&b"ice-ufrag:Zk3q"[..], &b"ice-pwd:9dJ2mQ"[..]]
            );
        }
        other => panic!("unexpected message {:?}", other),
    }
}

#[test]
fn dumped_open_rtp_connect_decodes_to_its_infos() {
    let bytes = decode(OPENRTPCONNECT);
    let packet = PacketRef::parse_from(&bytes).unwrap();
    match MessageRef::of_packet(&packet).unwrap() {
        MessageRef::OpenRtpConnect(r) => {
            assert_eq!(r.check_tag_count(CountPolicy::Enforce), Ok(true));
            let infos = r.rtpinfo_iter().collect();
            assert_eq!(infos.len(), 2);
            let audio = infos[0].as_ref().unwrap();
            assert_eq!(audio.part1().ip(), [10, 0, 0, 7]);
            assert_eq!(audio.part1().port(), 30000);
            assert_eq!(audio.attribute(), b"rtpmap:8 PCMA/8000");
            assert_eq!(audio.part2().tele_event(), 101);
            assert_eq!(audio.desc().collect(), vec![&b"sendrecv"[..], &b"ptime:20"[..]]);
            let video = infos[1].as_ref().unwrap();
            assert_eq!(video.part1().port(), 30002);
            assert_eq!(video.part1().nego_pltyp(), 96);
            assert_eq!(video.desc().collect(), vec![&b"recvonly"[..]]);
        }
        other => panic!("unexpected message {:?}", other),
    }
}

#[test]
fn dumped_messages_decode_to_their_kinds() {
    let kind = |dump: &str| -> u16 {
        let bytes = decode(dump);
        PacketRef::parse_from(&bytes).unwrap().code()
    };
    assert_eq!(kind(REQUESTCHANNEL_ACK), 0x2);
    assert_eq!(kind(OPENRTPCONNECT_ACK), 0xe);
    assert_eq!(kind(RESFROMTAG), 0x2f);
    assert_eq!(kind(PLAY), 0x3);
    assert_eq!(kind(CANCEL), 0x13);
    assert_eq!(kind(CLOSERTPCONNECT), 0x11);
    assert_eq!(kind(RELEASECHANNEL), 0x14);
    assert_eq!(kind(CLOSERTPCONNECT_ACK), 0x12);
    assert_eq!(kind(PLAY_ACK), 0x4);

    let bytes = decode(PLAY_ACK);
    let packet = PacketRef::parse_from(&bytes).unwrap();
    assert!(matches!(
        MessageRef::of_packet(&packet),
        Ok(MessageRef::PlayAck(p)) if p.part1().play_duration() == 5230
    ));
}
