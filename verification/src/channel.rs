//! Channel requests and their acknowledgements.
//!
//! A request is a fixed first part of four bytes (ice type, life seconds as
//! a big-endian `u16`, media type), a zero-terminated call id, for media
//! types 4 and 7 a zero-terminated agora info, a fixed second part of six
//! bytes (nbup flag, ptime, caller flag, codec, amr mode as a big-endian
//! `u16`), and a run of zero-terminated strings up to the end.
//!
//! An acknowledgement is a fixed part of eight bytes (result, audio port,
//! video port, fax port, media type; ports as big-endian `u16`) and a run of
//! zero-terminated strings up to the end.

use crate::error::{view_result, DecodeError, Field};
use crate::strs::StrIter;
use crate::wire::{
    advance, be_u16, find_str_null, first_null, get_u16, has_null, lemma_first_null_exists,
};
use vstd::prelude::*;

verus! {

/// Bytes of the first fixed part of a channel request.
pub const REQUEST_CHANNEL_PART1_LEN: usize = 4;

/// Bytes of the second fixed part of a channel request.
pub const REQUEST_CHANNEL_PART2_LEN: usize = 6;

/// Fewest bytes of a channel request: both fixed parts, the terminator of
/// the call id, and one byte more.
pub const REQUEST_CHANNEL_MIN_LEN: usize = 12;

/// Bytes of the fixed part of a channel acknowledgement.
pub const REQUEST_CHANNEL_ACK_PART1_LEN: usize = 8;

/// Fewest bytes of a channel acknowledgement: the fixed part and one byte
/// more.
pub const REQUEST_CHANNEL_ACK_MIN_LEN: usize = 9;

/// What a channel request holds.
pub struct RequestChannel {
    /// The four bytes of the first fixed part.
    pub part1: Seq<u8>,
    /// The call id, without its terminator.
    pub as_call_id: Seq<u8>,
    /// The agora info, without its terminator, where the media type asks for one.
    pub agora_info: Option<Seq<u8>>,
    /// The six bytes of the second fixed part.
    pub part2: Seq<u8>,
    /// The bytes of the trailing run of strings.
    pub webrtc: Seq<u8>,
}

/// What a channel acknowledgement holds.
pub struct RequestChannelAck {
    /// The eight bytes of the fixed part.
    pub part1: Seq<u8>,
    /// The bytes of the trailing run of strings.
    pub webrtc: Seq<u8>,
}

/// A channel request with this media type carries an agora info.
pub open spec fn carries_agora_info(media_type: u8) -> bool {
    media_type == 4 || media_type == 7
}

/// The channel request that `s` holds.
pub open spec fn request_channel_parse(s: Seq<u8>) -> Result<RequestChannel, DecodeError> {
    let after_part1 = s.skip(4);
    let after_call_id = after_part1.skip(first_null(after_part1) + 1);
    let agora = carries_agora_info(s[3]);
    let after_agora = if agora {
        after_call_id.skip(first_null(after_call_id) + 1)
    } else {
        after_call_id
    };
    if s.len() < REQUEST_CHANNEL_MIN_LEN {
        Err(
            DecodeError::TooShort {
                field: Field::RequestChannel,
                need: REQUEST_CHANNEL_MIN_LEN,
                have: s.len() as usize,
            },
        )
    } else if !has_null(after_part1) {
        Err(DecodeError::MissingTerminator { field: Field::AsCallId })
    } else if agora && !has_null(after_call_id) {
        Err(DecodeError::MissingTerminator { field: Field::AgoraInfo })
    } else if after_agora.len() < REQUEST_CHANNEL_PART2_LEN {
        Err(
            DecodeError::TooShort {
                field: Field::RequestChannelPart2,
                need: REQUEST_CHANNEL_PART2_LEN,
                have: after_agora.len() as usize,
            },
        )
    } else {
        Ok(
            RequestChannel {
                part1: s.take(4),
                as_call_id: after_part1.take(first_null(after_part1)),
                agora_info: if agora {
                    Some(after_call_id.take(first_null(after_call_id)))
                } else {
                    None
                },
                part2: after_agora.take(6),
                webrtc: after_agora.skip(6),
            },
        )
    }
}

/// The channel acknowledgement that `s` holds.
pub open spec fn request_channel_ack_parse(s: Seq<u8>) -> Result<RequestChannelAck, DecodeError> {
    if s.len() < REQUEST_CHANNEL_ACK_MIN_LEN {
        Err(
            DecodeError::TooShort {
                field: Field::RequestChannelAck,
                need: REQUEST_CHANNEL_ACK_MIN_LEN,
                have: s.len() as usize,
            },
        )
    } else {
        Ok(RequestChannelAck { part1: s.take(8), webrtc: s.skip(8) })
    }
}

/// A decoded channel request has an agora info exactly where its media type
/// is 4 or 7. With one, the second fixed part stands behind the terminator
/// of the agora info; without one, straight behind the terminator of the
/// call id. A request of media type 4 or 7 without a second terminated
/// string does not decode.
pub proof fn lemma_agora_info_by_media_type(s: Seq<u8>)
    requires
        s.len() >= REQUEST_CHANNEL_MIN_LEN,
    ensures
        request_channel_parse(s) matches Ok(m) ==> {
            let id_end: int = 4 + m.as_call_id.len() as int;
            &&& m.agora_info is Some <==> s[3] == 4 || s[3] == 7
            &&& s[id_end] == 0
            &&& m.agora_info is None ==> m.part2 == s.subrange(id_end + 1, id_end + 7)
            &&& m.agora_info matches Some(info) ==> {
                let info_end: int = id_end + 1 + info.len();
                &&& info == s.subrange(id_end + 1, info_end)
                &&& s[info_end] == 0
                &&& m.part2 == s.subrange(info_end + 1, info_end + 7)
            }
        },
        (s[3] == 4 || s[3] == 7) && has_null(s.skip(4)) && !has_null(
            s.skip(4 + first_null(s.skip(4)) + 1),
        ) ==> request_channel_parse(s) == Err::<RequestChannel, DecodeError>(
            DecodeError::MissingTerminator { field: Field::AgoraInfo },
        ),
{
    let a = s.skip(4);
    if has_null(a) {
        lemma_first_null_exists(a);
        let n1 = first_null(a);
        let b = a.skip(n1 + 1);
        assert(b == s.skip(4 + n1 + 1));
        if request_channel_parse(s) is Ok && carries_agora_info(s[3]) {
            lemma_first_null_exists(b);
        }
    }
}

/// The first fixed part of a channel request. Its view is its four bytes.
#[derive(Debug, Clone, Copy)]
pub struct RequestChannelPart1<'a>(&'a [u8]);

impl<'a> View for RequestChannelPart1<'a> {
    type V = Seq<u8>;

    closed spec fn view(&self) -> Seq<u8> {
        self.0@
    }
}

impl<'a> RequestChannelPart1<'a> {
    #[verifier::type_invariant]
    spec fn well_formed(self) -> bool {
        self.0@.len() == REQUEST_CHANNEL_PART1_LEN
    }

    pub fn ice_type_code(&self) -> (r: u8)
        ensures
            r == self@[0],
    {
        proof {
            use_type_invariant(self);
        }
        self.0[0]
    }

    pub fn life_seconds(&self) -> (r: u16)
        ensures
            r == be_u16(self@.skip(1)),
    {
        proof {
            use_type_invariant(self);
        }
        let mut buf = self.0;
        advance(&mut buf, 1);
        get_u16(&mut buf)
    }

    pub fn media_type_code(&self) -> (r: u8)
        ensures
            r == self@[3],
    {
        proof {
            use_type_invariant(self);
        }
        self.0[3]
    }
}

/// The second fixed part of a channel request. Its view is its six bytes.
#[derive(Debug, Clone, Copy)]
pub struct RequestChannelPart2<'a>(&'a [u8]);

impl<'a> View for RequestChannelPart2<'a> {
    type V = Seq<u8>;

    closed spec fn view(&self) -> Seq<u8> {
        self.0@
    }
}

impl<'a> RequestChannelPart2<'a> {
    #[verifier::type_invariant]
    spec fn well_formed(self) -> bool {
        self.0@.len() == REQUEST_CHANNEL_PART2_LEN
    }

    pub fn is_nbup(&self) -> (r: bool)
        ensures
            r == (self@[0] != 0),
    {
        proof {
            use_type_invariant(self);
        }
        self.0[0] != 0
    }

    pub fn ptime(&self) -> (r: u8)
        ensures
            r == self@[1],
    {
        proof {
            use_type_invariant(self);
        }
        self.0[1]
    }

    pub fn is_caller(&self) -> (r: bool)
        ensures
            r == (self@[2] != 0),
    {
        proof {
            use_type_invariant(self);
        }
        self.0[2] != 0
    }

    pub fn codec_code(&self) -> (r: u8)
        ensures
            r == self@[3],
    {
        proof {
            use_type_invariant(self);
        }
        self.0[3]
    }

    pub fn amr_mode(&self) -> (r: u16)
        ensures
            r == be_u16(self@.skip(4)),
    {
        proof {
            use_type_invariant(self);
        }
        let mut buf = self.0;
        advance(&mut buf, 4);
        get_u16(&mut buf)
    }
}

/// A channel request read in place.
#[derive(Debug, Clone, Copy)]
pub struct RequestChannelRef<'a> {
    fixed_part1: RequestChannelPart1<'a>,
    as_call_id: &'a [u8],
    agora_info: Option<&'a [u8]>,
    fixed_part2: RequestChannelPart2<'a>,
    webrtc: StrIter<'a>,
}

impl<'a> View for RequestChannelRef<'a> {
    type V = RequestChannel;

    closed spec fn view(&self) -> RequestChannel {
        RequestChannel {
            part1: self.fixed_part1@,
            as_call_id: self.as_call_id@,
            agora_info: match self.agora_info {
                Some(info) => Some(info@),
                None => None,
            },
            part2: self.fixed_part2@,
            webrtc: self.webrtc@,
        }
    }
}

impl<'a> RequestChannelRef<'a> {
    /// Decodes a channel request in one pass over `data`.
    pub fn parse_from(data: &'a [u8]) -> (r: Result<Self, DecodeError>)
        ensures
            view_result(r) == request_channel_parse(data@),
    {
        if data.len() < REQUEST_CHANNEL_MIN_LEN {
            return Err(
                DecodeError::TooShort {
                    field: Field::RequestChannel,
                    need: REQUEST_CHANNEL_MIN_LEN,
                    have: data.len(),
                },
            );
        }
        let mut buf = data;

        let fixed_part1 = RequestChannelPart1(&buf[0..REQUEST_CHANNEL_PART1_LEN]);
        advance(&mut buf, REQUEST_CHANNEL_PART1_LEN);

        let pos = match find_str_null(buf) {
            Some(pos) => pos,
            None => {
                return Err(DecodeError::MissingTerminator { field: Field::AsCallId });
            },
        };
        let as_call_id = &buf[0..pos];
        advance(&mut buf, pos + 1);

        let agora_info = match fixed_part1.media_type_code() {
            4 | 7 => {
                let pos = match find_str_null(buf) {
                    Some(pos) => pos,
                    None => {
                        return Err(DecodeError::MissingTerminator { field: Field::AgoraInfo });
                    },
                };
                let info = &buf[0..pos];
                advance(&mut buf, pos + 1);
                Some(info)
            },
            _ => None,
        };

        if buf.len() < REQUEST_CHANNEL_PART2_LEN {
            return Err(
                DecodeError::TooShort {
                    field: Field::RequestChannelPart2,
                    need: REQUEST_CHANNEL_PART2_LEN,
                    have: buf.len(),
                },
            );
        }
        let fixed_part2 = RequestChannelPart2(&buf[0..REQUEST_CHANNEL_PART2_LEN]);
        advance(&mut buf, REQUEST_CHANNEL_PART2_LEN);

        let webrtc = StrIter::new(buf);

        Ok(Self { fixed_part1, as_call_id, agora_info, fixed_part2, webrtc })
    }

    pub fn part1<'b>(&'b self) -> (r: &'b RequestChannelPart1<'a>)
        ensures
            r@ == self@.part1,
    {
        &self.fixed_part1
    }

    pub fn part2<'b>(&'b self) -> (r: &'b RequestChannelPart2<'a>)
        ensures
            r@ == self@.part2,
    {
        &self.fixed_part2
    }

    /// The call id, without its terminator.
    pub fn as_call_id(&self) -> (r: &'a [u8])
        ensures
            r@ == self@.as_call_id,
    {
        self.as_call_id
    }

    /// The agora info, without its terminator, where the request has one.
    pub fn agora_info(&self) -> (r: Option<&'a [u8]>)
        ensures
            r is Some <==> self@.agora_info is Some,
            r matches Some(info) ==> self@.agora_info == Some(info@),
    {
        self.agora_info
    }

    /// A cursor over the trailing run of strings.
    pub fn webrtc(&self) -> (r: StrIter<'a>)
        ensures
            r@ == self@.webrtc,
    {
        self.webrtc
    }
}

/// The fixed part of a channel acknowledgement. Its view is its eight bytes.
#[derive(Debug, Clone, Copy)]
pub struct RequestChannelAckPart1<'a>(&'a [u8]);

impl<'a> View for RequestChannelAckPart1<'a> {
    type V = Seq<u8>;

    closed spec fn view(&self) -> Seq<u8> {
        self.0@
    }
}

impl<'a> RequestChannelAckPart1<'a> {
    #[verifier::type_invariant]
    spec fn well_formed(self) -> bool {
        self.0@.len() == REQUEST_CHANNEL_ACK_PART1_LEN
    }

    pub fn result(&self) -> (r: u8)
        ensures
            r == self@[0],
    {
        proof {
            use_type_invariant(self);
        }
        self.0[0]
    }

    pub fn audio_port(&self) -> (r: u16)
        ensures
            r == be_u16(self@.skip(1)),
    {
        proof {
            use_type_invariant(self);
        }
        let mut buf = self.0;
        advance(&mut buf, 1);
        get_u16(&mut buf)
    }

    pub fn video_port(&self) -> (r: u16)
        ensures
            r == be_u16(self@.skip(3)),
    {
        proof {
            use_type_invariant(self);
        }
        let mut buf = self.0;
        advance(&mut buf, 3);
        get_u16(&mut buf)
    }

    pub fn fax_port(&self) -> (r: u16)
        ensures
            r == be_u16(self@.skip(5)),
    {
        proof {
            use_type_invariant(self);
        }
        let mut buf = self.0;
        advance(&mut buf, 5);
        get_u16(&mut buf)
    }

    pub fn media_type(&self) -> (r: u8)
        ensures
            r == self@[7],
    {
        proof {
            use_type_invariant(self);
        }
        self.0[7]
    }
}

/// A channel acknowledgement read in place.
#[derive(Debug, Clone, Copy)]
pub struct RequestChannelAckRef<'a> {
    fixed_part1: RequestChannelAckPart1<'a>,
    webrtc: StrIter<'a>,
}

impl<'a> View for RequestChannelAckRef<'a> {
    type V = RequestChannelAck;

    closed spec fn view(&self) -> RequestChannelAck {
        RequestChannelAck { part1: self.fixed_part1@, webrtc: self.webrtc@ }
    }
}

impl<'a> RequestChannelAckRef<'a> {
    /// Decodes a channel acknowledgement.
    pub fn parse_from(data: &'a [u8]) -> (r: Result<Self, DecodeError>)
        ensures
            view_result(r) == request_channel_ack_parse(data@),
    {
        if data.len() < REQUEST_CHANNEL_ACK_MIN_LEN {
            return Err(
                DecodeError::TooShort {
                    field: Field::RequestChannelAck,
                    need: REQUEST_CHANNEL_ACK_MIN_LEN,
                    have: data.len(),
                },
            );
        }
        let mut buf = data;
        let fixed_part1 = RequestChannelAckPart1(&buf[0..REQUEST_CHANNEL_ACK_PART1_LEN]);
        advance(&mut buf, REQUEST_CHANNEL_ACK_PART1_LEN);
        let webrtc = StrIter::new(buf);
        Ok(Self { fixed_part1, webrtc })
    }

    pub fn part1<'b>(&'b self) -> (r: &'b RequestChannelAckPart1<'a>)
        ensures
            r@ == self@.part1,
    {
        &self.fixed_part1
    }

    /// A cursor over the trailing run of strings.
    pub fn webrtc(&self) -> (r: StrIter<'a>)
        ensures
            r@ == self@.webrtc,
    {
        self.webrtc
    }
}

} // verus!
