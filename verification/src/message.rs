//! Choosing the decoder by code: for the payload of a packet, and for the
//! payload of a tag.
//!
//! A code outside the known set is an outcome of its own, never a failure:
//! the message or tag is handed back undecoded. A failure is always that of
//! a known code whose payload is malformed.

use crate::channel::{
    request_channel_ack_parse, request_channel_parse, RequestChannel, RequestChannelAck,
    RequestChannelAckRef, RequestChannelRef,
};
use crate::codes::{MCodeType, TagType};
use crate::error::{view_result, DecodeError, Field};
use crate::media::{
    media_info_parse, register_parse, MediaInfo, MediaInfoRef, Register, RegisterRef,
};
use crate::packet::{packet_code, packet_payload, PacketRef};
use crate::play::{
    cancel_parse, filename_parse, play_ack_parse, play_parse, res_from_tag_parse, CancelRef,
    Filename, FilenameRef, Play, PlayAck, PlayAckRef, PlayRef, ResFromTagRef,
};
use crate::rtp::{
    open_rtp_connect_parse, rtp_info_parse, single_byte_parse, CloseRtpConnect,
    CloseRtpConnectAck, OpenRtpConnect, OpenRtpConnectAck, OpenRtpConnectRef, RtpInfo, RtpInfoRef,
};
use crate::tag::{Tag, TagRef};
use vstd::prelude::*;
use vstd::std_specs::convert::TryFromSpec;

verus! {

/// What a message payload holds, by message code.
pub enum Message {
    Register(Register),
    RequestChannel(RequestChannel),
    RequestChannelAck(RequestChannelAck),
    OpenRtpConnect(OpenRtpConnect),
    OpenRtpConnectAck(u8),
    ResFromTag(Seq<u8>),
    Play(Play),
    PlayAck(PlayAck),
    Cancel(Seq<u8>),
    CloseRtpConnect(u8),
    CloseRtpConnectAck(u8),
    /// A release has no payload.
    ReleaseChannel,
    /// A known code whose payload this library does not decode.
    Undecoded(MCodeType),
    /// A code outside the known set.
    Unknown(u16),
}

/// What the payload of a tag holds, by tag code.
pub enum TagValue {
    MediaInfo(MediaInfo),
    Filename(Filename),
    RtpInfo(RtpInfo),
    /// A code outside the known set: the payload as it came.
    Unknown(Seq<u8>),
}

/// The message that a payload holds under a message code.
pub open spec fn message_parse(code: u16, payload: Seq<u8>) -> Result<Message, DecodeError> {
    match MCodeType::try_from_spec(code) {
        Err(_) => Ok(Message::Unknown(code)),
        Ok(MCodeType::REGISTER) => match register_parse(payload) {
            Ok(m) => Ok(Message::Register(m)),
            Err(e) => Err(e),
        },
        Ok(MCodeType::REQUESTCHANNEL) => match request_channel_parse(payload) {
            Ok(m) => Ok(Message::RequestChannel(m)),
            Err(e) => Err(e),
        },
        Ok(MCodeType::REQUESTCHANNEL_ACK) => match request_channel_ack_parse(payload) {
            Ok(m) => Ok(Message::RequestChannelAck(m)),
            Err(e) => Err(e),
        },
        Ok(MCodeType::OPENRTPCONNECT) => match open_rtp_connect_parse(payload) {
            Ok(m) => Ok(Message::OpenRtpConnect(m)),
            Err(e) => Err(e),
        },
        Ok(MCodeType::OPENRTPCONNECT_ACK) => match single_byte_parse(
            payload,
            Field::OpenRtpConnectAck,
        ) {
            Ok(m) => Ok(Message::OpenRtpConnectAck(m)),
            Err(e) => Err(e),
        },
        Ok(MCodeType::RESFROMTAG) => match res_from_tag_parse(payload) {
            Ok(m) => Ok(Message::ResFromTag(m)),
            Err(e) => Err(e),
        },
        Ok(MCodeType::PLAY) => match play_parse(payload) {
            Ok(m) => Ok(Message::Play(m)),
            Err(e) => Err(e),
        },
        Ok(MCodeType::PLAY_ACK) => match play_ack_parse(payload) {
            Ok(m) => Ok(Message::PlayAck(m)),
            Err(e) => Err(e),
        },
        Ok(MCodeType::CANCEL) => match cancel_parse(payload) {
            Ok(m) => Ok(Message::Cancel(m)),
            Err(e) => Err(e),
        },
        Ok(MCodeType::CLOSERTPCONNECT) => match single_byte_parse(payload, Field::CloseRtpConnect) {
            Ok(m) => Ok(Message::CloseRtpConnect(m)),
            Err(e) => Err(e),
        },
        Ok(MCodeType::CLOSERTPCONNECT_ACK) => match single_byte_parse(
            payload,
            Field::CloseRtpConnectAck,
        ) {
            Ok(m) => Ok(Message::CloseRtpConnectAck(m)),
            Err(e) => Err(e),
        },
        Ok(MCodeType::RELEASECHANNEL) => Ok(Message::ReleaseChannel),
        Ok(t) => Ok(Message::Undecoded(t)),
    }
}

/// The value that the payload of a tag holds under the tag's code.
pub open spec fn tag_value_parse(tag: Tag) -> Result<TagValue, DecodeError> {
    match TagType::try_from_spec(tag.code) {
        Err(_) => Ok(TagValue::Unknown(tag.payload)),
        Ok(TagType::MEDIAINFO) => match media_info_parse(tag.payload) {
            Ok((_, m)) => Ok(TagValue::MediaInfo(m)),
            Err(e) => Err(e),
        },
        Ok(TagType::FILENAME) => match filename_parse(tag.payload) {
            Ok(m) => Ok(TagValue::Filename(m)),
            Err(e) => Err(e),
        },
        Ok(TagType::RTPINFO) => match rtp_info_parse(tag.payload) {
            Ok(m) => Ok(TagValue::RtpInfo(m)),
            Err(e) => Err(e),
        },
    }
}

/// A code outside the known set never fails to decode, whatever the payload.
pub proof fn lemma_unknown_code_is_no_failure(code: u16, payload: Seq<u8>)
    requires
        MCodeType::try_from_spec(code) is Err,
    ensures
        message_parse(code, payload) == Ok::<Message, DecodeError>(Message::Unknown(code)),
{
}

/// A decoded message payload, borrowed from the buffer it was parsed from.
#[derive(Debug)]
pub enum MessageRef<'a> {
    Register(RegisterRef<'a>),
    RequestChannel(RequestChannelRef<'a>),
    RequestChannelAck(RequestChannelAckRef<'a>),
    OpenRtpConnect(OpenRtpConnectRef<'a>),
    OpenRtpConnectAck(OpenRtpConnectAck),
    ResFromTag(ResFromTagRef<'a>),
    Play(PlayRef<'a>),
    PlayAck(PlayAckRef<'a>),
    Cancel(CancelRef<'a>),
    CloseRtpConnect(CloseRtpConnect),
    CloseRtpConnectAck(CloseRtpConnectAck),
    /// A release has no payload.
    ReleaseChannel,
    /// A known code whose payload this library does not decode.
    Undecoded(MCodeType),
    /// A code outside the known set.
    Unknown(u16),
}

impl<'a> View for MessageRef<'a> {
    type V = Message;

    open spec fn view(&self) -> Message {
        match *self {
            MessageRef::Register(m) => Message::Register(m@),
            MessageRef::RequestChannel(m) => Message::RequestChannel(m@),
            MessageRef::RequestChannelAck(m) => Message::RequestChannelAck(m@),
            MessageRef::OpenRtpConnect(m) => Message::OpenRtpConnect(m@),
            MessageRef::OpenRtpConnectAck(m) => Message::OpenRtpConnectAck(m@),
            MessageRef::ResFromTag(m) => Message::ResFromTag(m@),
            MessageRef::Play(m) => Message::Play(m@),
            MessageRef::PlayAck(m) => Message::PlayAck(m@),
            MessageRef::Cancel(m) => Message::Cancel(m@),
            MessageRef::CloseRtpConnect(m) => Message::CloseRtpConnect(m@),
            MessageRef::CloseRtpConnectAck(m) => Message::CloseRtpConnectAck(m@),
            MessageRef::ReleaseChannel => Message::ReleaseChannel,
            MessageRef::Undecoded(t) => Message::Undecoded(t),
            MessageRef::Unknown(code) => Message::Unknown(code),
        }
    }
}

impl<'a> MessageRef<'a> {
    /// Decodes `payload` as the message that `code` names.
    pub fn parse_from(code: u16, payload: &'a [u8]) -> (r: Result<Self, DecodeError>)
        ensures
            view_result(r) == message_parse(code, payload@),
    {
        let code_type = match MCodeType::try_from(code) {
            Ok(t) => t,
            Err(_) => {
                return Ok(MessageRef::Unknown(code));
            },
        };
        match code_type {
            MCodeType::REGISTER => match RegisterRef::parse_from(payload) {
                Ok(m) => Ok(MessageRef::Register(m)),
                Err(e) => Err(e),
            },
            MCodeType::REQUESTCHANNEL => match RequestChannelRef::parse_from(payload) {
                Ok(m) => Ok(MessageRef::RequestChannel(m)),
                Err(e) => Err(e),
            },
            MCodeType::REQUESTCHANNEL_ACK => match RequestChannelAckRef::parse_from(payload) {
                Ok(m) => Ok(MessageRef::RequestChannelAck(m)),
                Err(e) => Err(e),
            },
            MCodeType::OPENRTPCONNECT => match OpenRtpConnectRef::parse_from(payload) {
                Ok(m) => Ok(MessageRef::OpenRtpConnect(m)),
                Err(e) => Err(e),
            },
            MCodeType::OPENRTPCONNECT_ACK => match OpenRtpConnectAck::parse_from(payload) {
                Ok(m) => Ok(MessageRef::OpenRtpConnectAck(m)),
                Err(e) => Err(e),
            },
            MCodeType::RESFROMTAG => match ResFromTagRef::parse_from(payload) {
                Ok(m) => Ok(MessageRef::ResFromTag(m)),
                Err(e) => Err(e),
            },
            MCodeType::PLAY => match PlayRef::parse_from(payload) {
                Ok(m) => Ok(MessageRef::Play(m)),
                Err(e) => Err(e),
            },
            MCodeType::PLAY_ACK => match PlayAckRef::parse_from(payload) {
                Ok(m) => Ok(MessageRef::PlayAck(m)),
                Err(e) => Err(e),
            },
            MCodeType::CANCEL => match CancelRef::parse_from(payload) {
                Ok(m) => Ok(MessageRef::Cancel(m)),
                Err(e) => Err(e),
            },
            MCodeType::CLOSERTPCONNECT => match CloseRtpConnect::parse_from(payload) {
                Ok(m) => Ok(MessageRef::CloseRtpConnect(m)),
                Err(e) => Err(e),
            },
            MCodeType::CLOSERTPCONNECT_ACK => match CloseRtpConnectAck::parse_from(payload) {
                Ok(m) => Ok(MessageRef::CloseRtpConnectAck(m)),
                Err(e) => Err(e),
            },
            MCodeType::RELEASECHANNEL => Ok(MessageRef::ReleaseChannel),
            t => Ok(MessageRef::Undecoded(t)),
        }
    }

    /// Decodes the payload of `packet` as the message that its code names.
    pub fn of_packet(packet: &PacketRef<'a>) -> (r: Result<Self, DecodeError>)
        ensures
            view_result(r) == message_parse(packet_code(packet@) as u16, packet_payload(packet@)),
    {
        Self::parse_from(packet.code(), packet.payload())
    }
}

/// The decoded payload of a tag, borrowed from the buffer it was parsed
/// from.
#[derive(Debug)]
pub enum TagValueRef<'a> {
    MediaInfo(MediaInfoRef<'a>),
    Filename(FilenameRef<'a>),
    RtpInfo(RtpInfoRef<'a>),
    /// A code outside the known set: the payload as it came.
    Unknown(&'a [u8]),
}

impl<'a> View for TagValueRef<'a> {
    type V = TagValue;

    open spec fn view(&self) -> TagValue {
        match *self {
            TagValueRef::MediaInfo(m) => TagValue::MediaInfo(m@),
            TagValueRef::Filename(m) => TagValue::Filename(m@),
            TagValueRef::RtpInfo(m) => TagValue::RtpInfo(m@),
            TagValueRef::Unknown(payload) => TagValue::Unknown(payload@),
        }
    }
}

impl<'a> TagValueRef<'a> {
    /// Decodes the payload of `tag` as the structure that its code names.
    pub fn of_tag(tag: &TagRef<'a>) -> (r: Result<Self, DecodeError>)
        ensures
            view_result(r) == tag_value_parse(tag@),
    {
        match tag.tag_type() {
            None => Ok(TagValueRef::Unknown(tag.payload())),
            Some(TagType::MEDIAINFO) => match MediaInfoRef::parse_from(tag.payload()) {
                Ok((_n, m)) => Ok(TagValueRef::MediaInfo(m)),
                Err(e) => Err(e),
            },
            Some(TagType::FILENAME) => match FilenameRef::parse_from(tag.payload()) {
                Ok(m) => Ok(TagValueRef::Filename(m)),
                Err(e) => Err(e),
            },
            Some(TagType::RTPINFO) => match RtpInfoRef::parse_from(tag.payload()) {
                Ok(m) => Ok(TagValueRef::RtpInfo(m)),
                Err(e) => Err(e),
            },
        }
    }
}

} // verus!
