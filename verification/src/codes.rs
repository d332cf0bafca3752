//! The code sets of the protocol: message codes, tag codes and the small
//! enumerations carried inside payloads.
//!
//! Every set is open: a number that names no variant is an ordinary value,
//! kept as it came, and never a decode failure.

use std::marker::PhantomData;
use vstd::prelude::*;
use vstd::std_specs::convert::TryFromSpec;

verus! {

/// A number that names no variant of the enumeration it was offered to.
#[derive(Debug, PartialEq, Eq, Structural)]
pub struct UnknownCode<TN>(pub TN);

/// Message codes.
#[allow(non_camel_case_types)]
#[derive(Debug, Clone, Copy, PartialEq, Eq, Structural)]
pub enum MCodeType {
    HEARTBEAT,
    REGISTER,
    REGISTER_ACK,
    CNISUP,
    CNISUP_ACK,
    REQUESTCHANNEL,
    REQUESTCHANNEL_ACK,
    PLAY,
    PLAY_ACK,
    COLLECTDIGIT,
    COLLECTDIGIT_ACK,
    RECORD,
    RECORD_ACK,
    SENDFAX,
    SENDFAX_ACK,
    RECEIVEFAX,
    RECEIVEFAX_ACK,
    OPENRTPCONNECT,
    OPENRTPCONNECT_ACK,
    SETRTPCONNECT,
    SETRTPCONNECT_ACK,
    CLOSERTPCONNECT,
    CLOSERTPCONNECT_ACK,
    CANCEL,
    RELEASECHANNEL,
    FAXEVENT,
    AUDIODETECT,
    AUDIODETECT_ACK,
    DTMFRCV,
    DTMFRCV_ACK,
    GET3PARTYPORT,
    GET3PARTYPORT_ACK,
    BRIDGE,
    BRIDGE_ACK,
    HTTPDOWNLOAD,
    THEARTBEAT,
    UNBRIDGE,
    RESETLIFETIMER,
    INFODTMF,
    NBUPINFO,
    MODIFYCHANNEL,
    MODIFYCHANNEL_ACK,
    ADDVIDEO_ACK,
    ERASEVIDEO_ACK,
    OPENRTMPCONNECT,
    OPENRTMPCONNECT_ACK,
    CLOSERTMPCONNECT,
    CLOSERTMPCONNECT_ACK,
    FACERECOG,
    FACERECOG_ACK,
    RESFROMTAG,
    AGORASUBSCRIBE,
    AGORAUNSUBSCRIBE,
    IVRMSGNAMELISTLENGTH,
}

impl MCodeType {
    /// The number that stands for this variant on the wire.
    pub open spec fn spec_code(&self) -> u16 {
        match self {
            MCodeType::HEARTBEAT => 0xffff,
            MCodeType::REGISTER => 0xff01,
            MCodeType::REGISTER_ACK => 0xff02,
            MCodeType::CNISUP => 0xff03,
            MCodeType::CNISUP_ACK => 0xff04,
            MCodeType::REQUESTCHANNEL => 0x1,
            MCodeType::REQUESTCHANNEL_ACK => 0x2,
            MCodeType::PLAY => 0x3,
            MCodeType::PLAY_ACK => 0x4,
            MCodeType::COLLECTDIGIT => 0x5,
            MCodeType::COLLECTDIGIT_ACK => 0x6,
            MCodeType::RECORD => 0x7,
            MCodeType::RECORD_ACK => 0x8,
            MCodeType::SENDFAX => 0x9,
            MCodeType::SENDFAX_ACK => 0xa,
            MCodeType::RECEIVEFAX => 0xb,
            MCodeType::RECEIVEFAX_ACK => 0xc,
            MCodeType::OPENRTPCONNECT => 0xd,
            MCodeType::OPENRTPCONNECT_ACK => 0xe,
            MCodeType::SETRTPCONNECT => 0xf,
            MCodeType::SETRTPCONNECT_ACK => 0x10,
            MCodeType::CLOSERTPCONNECT => 0x11,
            MCodeType::CLOSERTPCONNECT_ACK => 0x12,
            MCodeType::CANCEL => 0x13,
            MCodeType::RELEASECHANNEL => 0x14,
            MCodeType::FAXEVENT => 0x16,
            MCodeType::AUDIODETECT => 0x17,
            MCodeType::AUDIODETECT_ACK => 0x18,
            MCodeType::DTMFRCV => 0x19,
            MCodeType::DTMFRCV_ACK => 0x1a,
            MCodeType::GET3PARTYPORT => 0x1b,
            MCodeType::GET3PARTYPORT_ACK => 0x1c,
            MCodeType::BRIDGE => 0x1d,
            MCodeType::BRIDGE_ACK => 0x1e,
            MCodeType::HTTPDOWNLOAD => 0x1f,
            MCodeType::THEARTBEAT => 0x20,
            MCodeType::UNBRIDGE => 0x21,
            MCodeType::RESETLIFETIMER => 0x22,
            MCodeType::INFODTMF => 0x23,
            MCodeType::NBUPINFO => 0x24,
            MCodeType::MODIFYCHANNEL => 0x25,
            MCodeType::MODIFYCHANNEL_ACK => 0x26,
            MCodeType::ADDVIDEO_ACK => 0x27,
            MCodeType::ERASEVIDEO_ACK => 0x28,
            MCodeType::OPENRTMPCONNECT => 0x29,
            MCodeType::OPENRTMPCONNECT_ACK => 0x2a,
            MCodeType::CLOSERTMPCONNECT => 0x2b,
            MCodeType::CLOSERTMPCONNECT_ACK => 0x2c,
            MCodeType::FACERECOG => 0x2d,
            MCodeType::FACERECOG_ACK => 0x2e,
            MCodeType::RESFROMTAG => 0x2f,
            MCodeType::AGORASUBSCRIBE => 0x30,
            MCodeType::AGORAUNSUBSCRIBE => 0x31,
            MCodeType::IVRMSGNAMELISTLENGTH => 0x32,
        }
    }

    /// The number that stands for this variant on the wire.
    #[verifier::when_used_as_spec(spec_code)]
    pub fn code(&self) -> (r: u16)
        ensures
            r == self.spec_code(),
    {
        match self {
            MCodeType::HEARTBEAT => 0xffff,
            MCodeType::REGISTER => 0xff01,
            MCodeType::REGISTER_ACK => 0xff02,
            MCodeType::CNISUP => 0xff03,
            MCodeType::CNISUP_ACK => 0xff04,
            MCodeType::REQUESTCHANNEL => 0x1,
            MCodeType::REQUESTCHANNEL_ACK => 0x2,
            MCodeType::PLAY => 0x3,
            MCodeType::PLAY_ACK => 0x4,
            MCodeType::COLLECTDIGIT => 0x5,
            MCodeType::COLLECTDIGIT_ACK => 0x6,
            MCodeType::RECORD => 0x7,
            MCodeType::RECORD_ACK => 0x8,
            MCodeType::SENDFAX => 0x9,
            MCodeType::SENDFAX_ACK => 0xa,
            MCodeType::RECEIVEFAX => 0xb,
            MCodeType::RECEIVEFAX_ACK => 0xc,
            MCodeType::OPENRTPCONNECT => 0xd,
            MCodeType::OPENRTPCONNECT_ACK => 0xe,
            MCodeType::SETRTPCONNECT => 0xf,
            MCodeType::SETRTPCONNECT_ACK => 0x10,
            MCodeType::CLOSERTPCONNECT => 0x11,
            MCodeType::CLOSERTPCONNECT_ACK => 0x12,
            MCodeType::CANCEL => 0x13,
            MCodeType::RELEASECHANNEL => 0x14,
            MCodeType::FAXEVENT => 0x16,
            MCodeType::AUDIODETECT => 0x17,
            MCodeType::AUDIODETECT_ACK => 0x18,
            MCodeType::DTMFRCV => 0x19,
            MCodeType::DTMFRCV_ACK => 0x1a,
            MCodeType::GET3PARTYPORT => 0x1b,
            MCodeType::GET3PARTYPORT_ACK => 0x1c,
            MCodeType::BRIDGE => 0x1d,
            MCodeType::BRIDGE_ACK => 0x1e,
            MCodeType::HTTPDOWNLOAD => 0x1f,
            MCodeType::THEARTBEAT => 0x20,
            MCodeType::UNBRIDGE => 0x21,
            MCodeType::RESETLIFETIMER => 0x22,
            MCodeType::INFODTMF => 0x23,
            MCodeType::NBUPINFO => 0x24,
            MCodeType::MODIFYCHANNEL => 0x25,
            MCodeType::MODIFYCHANNEL_ACK => 0x26,
            MCodeType::ADDVIDEO_ACK => 0x27,
            MCodeType::ERASEVIDEO_ACK => 0x28,
            MCodeType::OPENRTMPCONNECT => 0x29,
            MCodeType::OPENRTMPCONNECT_ACK => 0x2a,
            MCodeType::CLOSERTMPCONNECT => 0x2b,
            MCodeType::CLOSERTMPCONNECT_ACK => 0x2c,
            MCodeType::FACERECOG => 0x2d,
            MCodeType::FACERECOG_ACK => 0x2e,
            MCodeType::RESFROMTAG => 0x2f,
            MCodeType::AGORASUBSCRIBE => 0x30,
            MCodeType::AGORAUNSUBSCRIBE => 0x31,
            MCodeType::IVRMSGNAMELISTLENGTH => 0x32,
        }
    }

    /// Each variant is found again from its number.
    pub proof fn lemma_code_round_trip(self)
        ensures
            MCodeType::try_from_spec(self.spec_code()) == Ok::<MCodeType, UnknownCode<u16>>(self),
    {
    }

    /// A number is accepted exactly where a variant stands for it, and that
    /// variant is the one returned.
    pub proof fn lemma_try_from_sound(code: u16)
        ensures
            MCodeType::try_from_spec(code) matches Ok(t) ==> t.spec_code() == code,
            MCodeType::try_from_spec(code) matches Err(e) ==> e == UnknownCode(code) && forall|t: MCodeType|
                t.spec_code() != code,
    {
    }
}

impl TryFrom<u16> for MCodeType {
    type Error = UnknownCode<u16>;

    fn try_from(code: u16) -> (r: Result<Self, Self::Error>) {
        match code {
            0xffff => Ok(MCodeType::HEARTBEAT),
            0xff01 => Ok(MCodeType::REGISTER),
            0xff02 => Ok(MCodeType::REGISTER_ACK),
            0xff03 => Ok(MCodeType::CNISUP),
            0xff04 => Ok(MCodeType::CNISUP_ACK),
            0x1 => Ok(MCodeType::REQUESTCHANNEL),
            0x2 => Ok(MCodeType::REQUESTCHANNEL_ACK),
            0x3 => Ok(MCodeType::PLAY),
            0x4 => Ok(MCodeType::PLAY_ACK),
            0x5 => Ok(MCodeType::COLLECTDIGIT),
            0x6 => Ok(MCodeType::COLLECTDIGIT_ACK),
            0x7 => Ok(MCodeType::RECORD),
            0x8 => Ok(MCodeType::RECORD_ACK),
            0x9 => Ok(MCodeType::SENDFAX),
            0xa => Ok(MCodeType::SENDFAX_ACK),
            0xb => Ok(MCodeType::RECEIVEFAX),
            0xc => Ok(MCodeType::RECEIVEFAX_ACK),
            0xd => Ok(MCodeType::OPENRTPCONNECT),
            0xe => Ok(MCodeType::OPENRTPCONNECT_ACK),
            0xf => Ok(MCodeType::SETRTPCONNECT),
            0x10 => Ok(MCodeType::SETRTPCONNECT_ACK),
            0x11 => Ok(MCodeType::CLOSERTPCONNECT),
            0x12 => Ok(MCodeType::CLOSERTPCONNECT_ACK),
            0x13 => Ok(MCodeType::CANCEL),
            0x14 => Ok(MCodeType::RELEASECHANNEL),
            0x16 => Ok(MCodeType::FAXEVENT),
            0x17 => Ok(MCodeType::AUDIODETECT),
            0x18 => Ok(MCodeType::AUDIODETECT_ACK),
            0x19 => Ok(MCodeType::DTMFRCV),
            0x1a => Ok(MCodeType::DTMFRCV_ACK),
            0x1b => Ok(MCodeType::GET3PARTYPORT),
            0x1c => Ok(MCodeType::GET3PARTYPORT_ACK),
            0x1d => Ok(MCodeType::BRIDGE),
            0x1e => Ok(MCodeType::BRIDGE_ACK),
            0x1f => Ok(MCodeType::HTTPDOWNLOAD),
            0x20 => Ok(MCodeType::THEARTBEAT),
            0x21 => Ok(MCodeType::UNBRIDGE),
            0x22 => Ok(MCodeType::RESETLIFETIMER),
            0x23 => Ok(MCodeType::INFODTMF),
            0x24 => Ok(MCodeType::NBUPINFO),
            0x25 => Ok(MCodeType::MODIFYCHANNEL),
            0x26 => Ok(MCodeType::MODIFYCHANNEL_ACK),
            0x27 => Ok(MCodeType::ADDVIDEO_ACK),
            0x28 => Ok(MCodeType::ERASEVIDEO_ACK),
            0x29 => Ok(MCodeType::OPENRTMPCONNECT),
            0x2a => Ok(MCodeType::OPENRTMPCONNECT_ACK),
            0x2b => Ok(MCodeType::CLOSERTMPCONNECT),
            0x2c => Ok(MCodeType::CLOSERTMPCONNECT_ACK),
            0x2d => Ok(MCodeType::FACERECOG),
            0x2e => Ok(MCodeType::FACERECOG_ACK),
            0x2f => Ok(MCodeType::RESFROMTAG),
            0x30 => Ok(MCodeType::AGORASUBSCRIBE),
            0x31 => Ok(MCodeType::AGORAUNSUBSCRIBE),
            0x32 => Ok(MCodeType::IVRMSGNAMELISTLENGTH),
            _ => Err(UnknownCode(code)),
        }
    }
}

impl vstd::std_specs::convert::TryFromSpecImpl<u16> for MCodeType {
    open spec fn obeys_try_from_spec() -> bool {
        true
    }

    open spec fn try_from_spec(code: u16) -> Result<Self, Self::Error> {
        if code == 0xffff {
            Ok(MCodeType::HEARTBEAT)
        } else if code == 0xff01 {
            Ok(MCodeType::REGISTER)
        } else if code == 0xff02 {
            Ok(MCodeType::REGISTER_ACK)
        } else if code == 0xff03 {
            Ok(MCodeType::CNISUP)
        } else if code == 0xff04 {
            Ok(MCodeType::CNISUP_ACK)
        } else if code == 0x1 {
            Ok(MCodeType::REQUESTCHANNEL)
        } else if code == 0x2 {
            Ok(MCodeType::REQUESTCHANNEL_ACK)
        } else if code == 0x3 {
            Ok(MCodeType::PLAY)
        } else if code == 0x4 {
            Ok(MCodeType::PLAY_ACK)
        } else if code == 0x5 {
            Ok(MCodeType::COLLECTDIGIT)
        } else if code == 0x6 {
            Ok(MCodeType::COLLECTDIGIT_ACK)
        } else if code == 0x7 {
            Ok(MCodeType::RECORD)
        } else if code == 0x8 {
            Ok(MCodeType::RECORD_ACK)
        } else if code == 0x9 {
            Ok(MCodeType::SENDFAX)
        } else if code == 0xa {
            Ok(MCodeType::SENDFAX_ACK)
        } else if code == 0xb {
            Ok(MCodeType::RECEIVEFAX)
        } else if code == 0xc {
            Ok(MCodeType::RECEIVEFAX_ACK)
        } else if code == 0xd {
            Ok(MCodeType::OPENRTPCONNECT)
        } else if code == 0xe {
            Ok(MCodeType::OPENRTPCONNECT_ACK)
        } else if code == 0xf {
            Ok(MCodeType::SETRTPCONNECT)
        } else if code == 0x10 {
            Ok(MCodeType::SETRTPCONNECT_ACK)
        } else if code == 0x11 {
            Ok(MCodeType::CLOSERTPCONNECT)
        } else if code == 0x12 {
            Ok(MCodeType::CLOSERTPCONNECT_ACK)
        } else if code == 0x13 {
            Ok(MCodeType::CANCEL)
        } else if code == 0x14 {
            Ok(MCodeType::RELEASECHANNEL)
        } else if code == 0x16 {
            Ok(MCodeType::FAXEVENT)
        } else if code == 0x17 {
            Ok(MCodeType::AUDIODETECT)
        } else if code == 0x18 {
            Ok(MCodeType::AUDIODETECT_ACK)
        } else if code == 0x19 {
            Ok(MCodeType::DTMFRCV)
        } else if code == 0x1a {
            Ok(MCodeType::DTMFRCV_ACK)
        } else if code == 0x1b {
            Ok(MCodeType::GET3PARTYPORT)
        } else if code == 0x1c {
            Ok(MCodeType::GET3PARTYPORT_ACK)
        } else if code == 0x1d {
            Ok(MCodeType::BRIDGE)
        } else if code == 0x1e {
            Ok(MCodeType::BRIDGE_ACK)
        } else if code == 0x1f {
            Ok(MCodeType::HTTPDOWNLOAD)
        } else if code == 0x20 {
            Ok(MCodeType::THEARTBEAT)
        } else if code == 0x21 {
            Ok(MCodeType::UNBRIDGE)
        } else if code == 0x22 {
            Ok(MCodeType::RESETLIFETIMER)
        } else if code == 0x23 {
            Ok(MCodeType::INFODTMF)
        } else if code == 0x24 {
            Ok(MCodeType::NBUPINFO)
        } else if code == 0x25 {
            Ok(MCodeType::MODIFYCHANNEL)
        } else if code == 0x26 {
            Ok(MCodeType::MODIFYCHANNEL_ACK)
        } else if code == 0x27 {
            Ok(MCodeType::ADDVIDEO_ACK)
        } else if code == 0x28 {
            Ok(MCodeType::ERASEVIDEO_ACK)
        } else if code == 0x29 {
            Ok(MCodeType::OPENRTMPCONNECT)
        } else if code == 0x2a {
            Ok(MCodeType::OPENRTMPCONNECT_ACK)
        } else if code == 0x2b {
            Ok(MCodeType::CLOSERTMPCONNECT)
        } else if code == 0x2c {
            Ok(MCodeType::CLOSERTMPCONNECT_ACK)
        } else if code == 0x2d {
            Ok(MCodeType::FACERECOG)
        } else if code == 0x2e {
            Ok(MCodeType::FACERECOG_ACK)
        } else if code == 0x2f {
            Ok(MCodeType::RESFROMTAG)
        } else if code == 0x30 {
            Ok(MCodeType::AGORASUBSCRIBE)
        } else if code == 0x31 {
            Ok(MCodeType::AGORAUNSUBSCRIBE)
        } else if code == 0x32 {
            Ok(MCodeType::IVRMSGNAMELISTLENGTH)
        } else {
            Err(UnknownCode(code))
        }
    }
}

/// Tag codes.
#[allow(non_camel_case_types)]
#[derive(Debug, Clone, Copy, PartialEq, Eq, Structural)]
pub enum TagType {
    MEDIAINFO,
    FILENAME,
    RTPINFO,
}

impl TagType {
    /// The number that stands for this variant on the wire.
    pub open spec fn spec_code(&self) -> u8 {
        match self {
            TagType::MEDIAINFO => 0x01,
            TagType::FILENAME => 0x02,
            TagType::RTPINFO => 0x06,
        }
    }

    /// The number that stands for this variant on the wire.
    #[verifier::when_used_as_spec(spec_code)]
    pub fn code(&self) -> (r: u8)
        ensures
            r == self.spec_code(),
    {
        match self {
            TagType::MEDIAINFO => 0x01,
            TagType::FILENAME => 0x02,
            TagType::RTPINFO => 0x06,
        }
    }

    /// Each variant is found again from its number.
    pub proof fn lemma_code_round_trip(self)
        ensures
            TagType::try_from_spec(self.spec_code()) == Ok::<TagType, UnknownCode<u8>>(self),
    {
    }

    /// A number is accepted exactly where a variant stands for it, and that
    /// variant is the one returned.
    pub proof fn lemma_try_from_sound(code: u8)
        ensures
            TagType::try_from_spec(code) matches Ok(t) ==> t.spec_code() == code,
            TagType::try_from_spec(code) matches Err(e) ==> e == UnknownCode(code) && forall|t: TagType|
                t.spec_code() != code,
    {
    }
}

impl TryFrom<u8> for TagType {
    type Error = UnknownCode<u8>;

    fn try_from(code: u8) -> (r: Result<Self, Self::Error>) {
        match code {
            0x01 => Ok(TagType::MEDIAINFO),
            0x02 => Ok(TagType::FILENAME),
            0x06 => Ok(TagType::RTPINFO),
            _ => Err(UnknownCode(code)),
        }
    }
}

impl vstd::std_specs::convert::TryFromSpecImpl<u8> for TagType {
    open spec fn obeys_try_from_spec() -> bool {
        true
    }

    open spec fn try_from_spec(code: u8) -> Result<Self, Self::Error> {
        if code == 0x01 {
            Ok(TagType::MEDIAINFO)
        } else if code == 0x02 {
            Ok(TagType::FILENAME)
        } else if code == 0x06 {
            Ok(TagType::RTPINFO)
        } else {
            Err(UnknownCode(code))
        }
    }
}

/// How a channel negotiates connectivity.
#[derive(Debug, Clone, Copy, PartialEq, Eq, Structural)]
pub enum IceType {
    /// No STUN, DTLS or SRTP.
    Simple,
    /// STUN, DTLS and SRTP.
    Webrtc,
    /// STUN, without DTLS or SRTP.
    StunOnly,
}

impl IceType {
    /// The number that stands for this variant on the wire.
    pub open spec fn spec_code(&self) -> u8 {
        match self {
            IceType::Simple => 0,
            IceType::Webrtc => 1,
            IceType::StunOnly => 2,
        }
    }

    /// The number that stands for this variant on the wire.
    #[verifier::when_used_as_spec(spec_code)]
    pub fn code(&self) -> (r: u8)
        ensures
            r == self.spec_code(),
    {
        match self {
            IceType::Simple => 0,
            IceType::Webrtc => 1,
            IceType::StunOnly => 2,
        }
    }

    /// Each variant is found again from its number.
    pub proof fn lemma_code_round_trip(self)
        ensures
            IceType::try_from_spec(self.spec_code()) == Ok::<IceType, UnknownCode<u8>>(self),
    {
    }

    /// A number is accepted exactly where a variant stands for it, and that
    /// variant is the one returned.
    pub proof fn lemma_try_from_sound(code: u8)
        ensures
            IceType::try_from_spec(code) matches Ok(t) ==> t.spec_code() == code,
            IceType::try_from_spec(code) matches Err(e) ==> e == UnknownCode(code) && forall|t: IceType|
                t.spec_code() != code,
    {
    }
}

impl TryFrom<u8> for IceType {
    type Error = UnknownCode<u8>;

    fn try_from(code: u8) -> (r: Result<Self, Self::Error>) {
        match code {
            0 => Ok(IceType::Simple),
            1 => Ok(IceType::Webrtc),
            2 => Ok(IceType::StunOnly),
            _ => Err(UnknownCode(code)),
        }
    }
}

impl vstd::std_specs::convert::TryFromSpecImpl<u8> for IceType {
    open spec fn obeys_try_from_spec() -> bool {
        true
    }

    open spec fn try_from_spec(code: u8) -> Result<Self, Self::Error> {
        if code == 0 {
            Ok(IceType::Simple)
        } else if code == 1 {
            Ok(IceType::Webrtc)
        } else if code == 2 {
            Ok(IceType::StunOnly)
        } else {
            Err(UnknownCode(code))
        }
    }
}

/// What a channel carries.
#[derive(Debug, Clone, Copy, PartialEq, Eq, Structural)]
pub enum MediaType {
    AudioOnly,
    AudioVideo,
    Image,
    Agora,
    Rtmp,
    TRtc,
    TRtcVideo,
    BRtc,
    VideoOnly,
    PRtc,
}

impl MediaType {
    /// The number that stands for this variant on the wire.
    pub open spec fn spec_code(&self) -> u8 {
        match self {
            MediaType::AudioOnly => 1,
            MediaType::AudioVideo => 2,
            MediaType::Image => 3,
            MediaType::Agora => 4,
            MediaType::Rtmp => 8,
            MediaType::TRtc => 9,
            MediaType::TRtcVideo => 10,
            MediaType::BRtc => 11,
            MediaType::VideoOnly => 12,
            MediaType::PRtc => 13,
        }
    }

    /// The number that stands for this variant on the wire.
    #[verifier::when_used_as_spec(spec_code)]
    pub fn code(&self) -> (r: u8)
        ensures
            r == self.spec_code(),
    {
        match self {
            MediaType::AudioOnly => 1,
            MediaType::AudioVideo => 2,
            MediaType::Image => 3,
            MediaType::Agora => 4,
            MediaType::Rtmp => 8,
            MediaType::TRtc => 9,
            MediaType::TRtcVideo => 10,
            MediaType::BRtc => 11,
            MediaType::VideoOnly => 12,
            MediaType::PRtc => 13,
        }
    }

    /// Each variant is found again from its number.
    pub proof fn lemma_code_round_trip(self)
        ensures
            MediaType::try_from_spec(self.spec_code()) == Ok::<MediaType, UnknownCode<u8>>(self),
    {
    }

    /// A number is accepted exactly where a variant stands for it, and that
    /// variant is the one returned.
    pub proof fn lemma_try_from_sound(code: u8)
        ensures
            MediaType::try_from_spec(code) matches Ok(t) ==> t.spec_code() == code,
            MediaType::try_from_spec(code) matches Err(e) ==> e == UnknownCode(code) && forall|t: MediaType|
                t.spec_code() != code,
    {
    }
}

impl TryFrom<u8> for MediaType {
    type Error = UnknownCode<u8>;

    fn try_from(code: u8) -> (r: Result<Self, Self::Error>) {
        match code {
            1 => Ok(MediaType::AudioOnly),
            2 => Ok(MediaType::AudioVideo),
            3 => Ok(MediaType::Image),
            4 => Ok(MediaType::Agora),
            8 => Ok(MediaType::Rtmp),
            9 => Ok(MediaType::TRtc),
            10 => Ok(MediaType::TRtcVideo),
            11 => Ok(MediaType::BRtc),
            12 => Ok(MediaType::VideoOnly),
            13 => Ok(MediaType::PRtc),
            _ => Err(UnknownCode(code)),
        }
    }
}

impl vstd::std_specs::convert::TryFromSpecImpl<u8> for MediaType {
    open spec fn obeys_try_from_spec() -> bool {
        true
    }

    open spec fn try_from_spec(code: u8) -> Result<Self, Self::Error> {
        if code == 1 {
            Ok(MediaType::AudioOnly)
        } else if code == 2 {
            Ok(MediaType::AudioVideo)
        } else if code == 3 {
            Ok(MediaType::Image)
        } else if code == 4 {
            Ok(MediaType::Agora)
        } else if code == 8 {
            Ok(MediaType::Rtmp)
        } else if code == 9 {
            Ok(MediaType::TRtc)
        } else if code == 10 {
            Ok(MediaType::TRtcVideo)
        } else if code == 11 {
            Ok(MediaType::BRtc)
        } else if code == 12 {
            Ok(MediaType::VideoOnly)
        } else if code == 13 {
            Ok(MediaType::PRtc)
        } else {
            Err(UnknownCode(code))
        }
    }
}

/// What an RTP stream carries.
#[derive(Debug, Clone, Copy, PartialEq, Eq, Structural)]
pub enum RtpMediaType {
    Audio,
    Video,
    T38,
}

impl RtpMediaType {
    /// The number that stands for this variant on the wire.
    pub open spec fn spec_code(&self) -> u8 {
        match self {
            RtpMediaType::Audio => 0,
            RtpMediaType::Video => 1,
            RtpMediaType::T38 => 2,
        }
    }

    /// The number that stands for this variant on the wire.
    #[verifier::when_used_as_spec(spec_code)]
    pub fn code(&self) -> (r: u8)
        ensures
            r == self.spec_code(),
    {
        match self {
            RtpMediaType::Audio => 0,
            RtpMediaType::Video => 1,
            RtpMediaType::T38 => 2,
        }
    }

    /// Each variant is found again from its number.
    pub proof fn lemma_code_round_trip(self)
        ensures
            RtpMediaType::try_from_spec(self.spec_code()) == Ok::<RtpMediaType, UnknownCode<u8>>(self),
    {
    }

    /// A number is accepted exactly where a variant stands for it, and that
    /// variant is the one returned.
    pub proof fn lemma_try_from_sound(code: u8)
        ensures
            RtpMediaType::try_from_spec(code) matches Ok(t) ==> t.spec_code() == code,
            RtpMediaType::try_from_spec(code) matches Err(e) ==> e == UnknownCode(code) && forall|t: RtpMediaType|
                t.spec_code() != code,
    {
    }
}

impl TryFrom<u8> for RtpMediaType {
    type Error = UnknownCode<u8>;

    fn try_from(code: u8) -> (r: Result<Self, Self::Error>) {
        match code {
            0 => Ok(RtpMediaType::Audio),
            1 => Ok(RtpMediaType::Video),
            2 => Ok(RtpMediaType::T38),
            _ => Err(UnknownCode(code)),
        }
    }
}

impl vstd::std_specs::convert::TryFromSpecImpl<u8> for RtpMediaType {
    open spec fn obeys_try_from_spec() -> bool {
        true
    }

    open spec fn try_from_spec(code: u8) -> Result<Self, Self::Error> {
        if code == 0 {
            Ok(RtpMediaType::Audio)
        } else if code == 1 {
            Ok(RtpMediaType::Video)
        } else if code == 2 {
            Ok(RtpMediaType::T38)
        } else {
            Err(UnknownCode(code))
        }
    }
}

/// The known variant for `r`, if there is one.
pub open spec fn known<TN, TE>(r: Result<TE, UnknownCode<TN>>) -> Option<TE> {
    match r {
        Ok(t) => Some(t),
        Err(_) => None,
    }
}

/// A raw number together with the enumeration it is meant to be read in.
pub struct EnumNum<TN, TE>(TN, PhantomData<TE>);

impl<TN: Copy, TE: TryFrom<TN>> EnumNum<TN, TE> {
    /// The raw number.
    pub closed spec fn spec_num(&self) -> TN {
        self.0
    }

    /// Keeps `num` as it is.
    pub fn new(num: TN) -> (r: Self)
        ensures
            r.spec_num() == num,
    {
        Self(num, PhantomData)
    }

    /// The raw number.
    #[verifier::when_used_as_spec(spec_num)]
    pub fn as_num(&self) -> (r: TN)
        ensures
            r == self.spec_num(),
    {
        self.0
    }

    /// The variant that the number names, if any.
    pub fn as_type(&self) -> (r: Option<TE>)
        ensures
            TE::obeys_try_from_spec() ==> r == match TE::try_from_spec(self.spec_num()) {
                Ok(t) => Some(t),
                Err(_) => None,
            },
    {
        match TE::try_from(self.0) {
            Ok(t) => Some(t),
            Err(_) => None,
        }
    }
}

/// A raw 16-bit number together with the enumeration it is meant to be read
/// in; such codes are shown in hexadecimal.
pub struct EnumHexU16<TE>(u16, PhantomData<TE>);

impl<TE: TryFrom<u16>> EnumHexU16<TE> {
    /// The raw number.
    pub closed spec fn spec_num(&self) -> u16 {
        self.0
    }

    /// Keeps `num` as it is.
    pub fn new(num: u16) -> (r: Self)
        ensures
            r.spec_num() == num,
    {
        Self(num, PhantomData)
    }

    /// The raw number.
    #[verifier::when_used_as_spec(spec_num)]
    pub fn as_num(&self) -> (r: u16)
        ensures
            r == self.spec_num(),
    {
        self.0
    }

    /// The variant that the number names, if any.
    pub fn as_type(&self) -> (r: Option<TE>)
        ensures
            TE::obeys_try_from_spec() ==> r == match TE::try_from_spec(self.spec_num()) {
                Ok(t) => Some(t),
                Err(_) => None,
            },
    {
        match TE::try_from(self.0) {
            Ok(t) => Some(t),
            Err(_) => None,
        }
    }
}

/// A message code, known or not.
pub type MCode = EnumHexU16<MCodeType>;

/// An ice type, known or not.
pub type IceCode = EnumNum<u8, IceType>;

/// A media type, known or not.
pub type MediaCode = EnumNum<u8, MediaType>;

/// The media type of an RTP stream, known or not.
pub type RtpMediaTypeCode = EnumNum<u8, RtpMediaType>;

} // verus!
