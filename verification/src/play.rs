//! Playing announcements, and the small messages around it.
//!
//! A play request is a fixed part of sixteen bytes (interval `u32`, play
//! times `u16`, max duration `u32`, key mask `u16`, record flag, speech-barge
//! flag, erase-dtmf flag, tag count) and a run of tags. Its answer is a fixed
//! part of five bytes (result, play duration `u32`) and a run of tags. A
//! cancel names the message code being cancelled in two bytes. All numbers
//! are big-endian.

use crate::error::{view_result, DecodeError, Field};
use crate::strs::StrRef;
use crate::tag::TagIter;
use crate::wire::{
    advance, be_u16, be_u32, find_str_null, first_null, get_u16, get_u32, get_u8, has_null,
    str_from_utf8,
};
use vstd::prelude::*;
use vstd::string::StringSliceAdditionalSpecFns;
use vstd::utf8::valid_utf8;

verus! {

/// Bytes of the fixed part of a play request.
pub const PLAY_PART1_LEN: usize = 16;

/// Bytes of the fixed part of a play answer.
pub const PLAY_ACK_PART1_LEN: usize = 5;

/// Bytes of a cancel.
pub const CANCEL_LEN: usize = 2;

/// What a play request holds.
pub struct Play {
    /// The sixteen bytes of the fixed part.
    pub part1: Seq<u8>,
    /// The bytes of the run of tags.
    pub tags: Seq<u8>,
}

/// What a play answer holds.
pub struct PlayAck {
    /// The five bytes of the fixed part.
    pub part1: Seq<u8>,
    /// The bytes of the run of tags.
    pub tags: Seq<u8>,
}

/// What a filename structure holds.
pub struct Filename {
    pub format: u8,
    /// The name, without its terminator.
    pub filename: Seq<u8>,
}

/// The play request that `s` holds.
pub open spec fn play_parse(s: Seq<u8>) -> Result<Play, DecodeError> {
    if s.len() < PLAY_PART1_LEN {
        Err(DecodeError::TooShort { field: Field::Play, need: PLAY_PART1_LEN, have: s.len() as usize })
    } else {
        Ok(Play { part1: s.take(16), tags: s.skip(16) })
    }
}

/// The play answer that `s` holds.
pub open spec fn play_ack_parse(s: Seq<u8>) -> Result<PlayAck, DecodeError> {
    if s.len() < PLAY_ACK_PART1_LEN {
        Err(
            DecodeError::TooShort {
                field: Field::PlayAck,
                need: PLAY_ACK_PART1_LEN,
                have: s.len() as usize,
            },
        )
    } else {
        Ok(PlayAck { part1: s.take(5), tags: s.skip(5) })
    }
}

/// The filename structure that `s` holds: a format byte and a
/// zero-terminated name.
pub open spec fn filename_parse(s: Seq<u8>) -> Result<Filename, DecodeError> {
    if s.len() < 1 {
        Err(DecodeError::TooShort { field: Field::Filename, need: 1, have: s.len() as usize })
    } else if !has_null(s.skip(1)) {
        Err(DecodeError::MissingTerminator { field: Field::Filename })
    } else {
        Ok(Filename { format: s[0], filename: s.skip(1).take(first_null(s.skip(1))) })
    }
}

/// The two bytes of the cancel that `s` holds.
pub open spec fn cancel_parse(s: Seq<u8>) -> Result<Seq<u8>, DecodeError> {
    if s.len() < CANCEL_LEN {
        Err(DecodeError::TooShort { field: Field::Cancel, need: CANCEL_LEN, have: s.len() as usize })
    } else {
        Ok(s.take(2))
    }
}

/// The string that `s` holds, without its terminator.
pub open spec fn res_from_tag_parse(s: Seq<u8>) -> Result<Seq<u8>, DecodeError> {
    if s.len() < 1 {
        Err(DecodeError::TooShort { field: Field::ResFromTag, need: 1, have: s.len() as usize })
    } else if !has_null(s) {
        Err(DecodeError::MissingTerminator { field: Field::ResFromTag })
    } else {
        Ok(s.take(first_null(s)))
    }
}

/// The fixed part of a play request. Its view is its sixteen bytes.
#[derive(Debug, Clone, Copy)]
pub struct PlayPart1<'a>(&'a [u8]);

impl<'a> View for PlayPart1<'a> {
    type V = Seq<u8>;

    closed spec fn view(&self) -> Seq<u8> {
        self.0@
    }
}

impl<'a> PlayPart1<'a> {
    #[verifier::type_invariant]
    spec fn well_formed(self) -> bool {
        self.0@.len() == PLAY_PART1_LEN
    }

    pub fn interval(&self) -> (r: u32)
        ensures
            r == be_u32(self@),
    {
        proof {
            use_type_invariant(self);
        }
        let mut buf = self.0;
        get_u32(&mut buf)
    }

    pub fn play_times(&self) -> (r: u16)
        ensures
            r == be_u16(self@.skip(4)),
    {
        proof {
            use_type_invariant(self);
        }
        let mut buf = self.0;
        advance(&mut buf, 4);
        get_u16(&mut buf)
    }

    pub fn max_duration(&self) -> (r: u32)
        ensures
            r == be_u32(self@.skip(6)),
    {
        proof {
            use_type_invariant(self);
        }
        let mut buf = self.0;
        advance(&mut buf, 6);
        get_u32(&mut buf)
    }

    pub fn key_mask(&self) -> (r: u16)
        ensures
            r == be_u16(self@.skip(10)),
    {
        proof {
            use_type_invariant(self);
        }
        let mut buf = self.0;
        advance(&mut buf, 10);
        get_u16(&mut buf)
    }

    pub fn record(&self) -> (r: bool)
        ensures
            r == (self@[12] != 0),
    {
        proof {
            use_type_invariant(self);
        }
        self.0[12] != 0
    }

    pub fn speech_barge(&self) -> (r: bool)
        ensures
            r == (self@[13] != 0),
    {
        proof {
            use_type_invariant(self);
        }
        self.0[13] != 0
    }

    pub fn erase_dtmf(&self) -> (r: bool)
        ensures
            r == (self@[14] != 0),
    {
        proof {
            use_type_invariant(self);
        }
        self.0[14] != 0
    }

    /// The tag count as declared.
    pub fn num_tlv(&self) -> (r: u8)
        ensures
            r == self@[15],
    {
        proof {
            use_type_invariant(self);
        }
        self.0[15]
    }
}

/// A play request read in place.
#[derive(Debug, Clone, Copy)]
pub struct PlayRef<'a> {
    part1: PlayPart1<'a>,
    tags: TagIter<'a>,
}

impl<'a> View for PlayRef<'a> {
    type V = Play;

    closed spec fn view(&self) -> Play {
        Play { part1: self.part1@, tags: self.tags@ }
    }
}

impl<'a> PlayRef<'a> {
    /// Decodes a play request. The tags are not looked at yet.
    pub fn parse_from(data: &'a [u8]) -> (r: Result<Self, DecodeError>)
        ensures
            view_result(r) == play_parse(data@),
    {
        if data.len() < PLAY_PART1_LEN {
            return Err(
                DecodeError::TooShort { field: Field::Play, need: PLAY_PART1_LEN, have: data.len() },
            );
        }
        let mut buf = data;
        let part1 = PlayPart1(&buf[0..PLAY_PART1_LEN]);
        advance(&mut buf, PLAY_PART1_LEN);
        let tags = TagIter::new(buf);
        Ok(Self { part1, tags })
    }

    pub fn part1<'b>(&'b self) -> (r: &'b PlayPart1<'a>)
        ensures
            r@ == self@.part1,
    {
        &self.part1
    }

    /// A cursor over the option tags.
    pub fn tags(&self) -> (r: TagIter<'a>)
        ensures
            r@ == self@.tags,
    {
        self.tags
    }
}

/// The fixed part of a play answer. Its view is its five bytes.
#[derive(Debug, Clone, Copy)]
pub struct PlayAckPart1<'a>(&'a [u8]);

impl<'a> View for PlayAckPart1<'a> {
    type V = Seq<u8>;

    closed spec fn view(&self) -> Seq<u8> {
        self.0@
    }
}

impl<'a> PlayAckPart1<'a> {
    #[verifier::type_invariant]
    spec fn well_formed(self) -> bool {
        self.0@.len() == PLAY_ACK_PART1_LEN
    }

    pub fn result(&self) -> (r: u8)
        ensures
            r == self@[0],
    {
        proof {
            use_type_invariant(self);
        }
        self.0[0]
    }

    pub fn play_duration(&self) -> (r: u32)
        ensures
            r == be_u32(self@.skip(1)),
    {
        proof {
            use_type_invariant(self);
        }
        let mut buf = self.0;
        advance(&mut buf, 1);
        get_u32(&mut buf)
    }
}

/// A play answer read in place.
#[derive(Debug, Clone, Copy)]
pub struct PlayAckRef<'a> {
    part1: PlayAckPart1<'a>,
    tags: TagIter<'a>,
}

impl<'a> View for PlayAckRef<'a> {
    type V = PlayAck;

    closed spec fn view(&self) -> PlayAck {
        PlayAck { part1: self.part1@, tags: self.tags@ }
    }
}

impl<'a> PlayAckRef<'a> {
    /// Decodes a play answer. The tags are not looked at yet.
    pub fn parse_from(data: &'a [u8]) -> (r: Result<Self, DecodeError>)
        ensures
            view_result(r) == play_ack_parse(data@),
    {
        if data.len() < PLAY_ACK_PART1_LEN {
            return Err(
                DecodeError::TooShort {
                    field: Field::PlayAck,
                    need: PLAY_ACK_PART1_LEN,
                    have: data.len(),
                },
            );
        }
        let mut buf = data;
        let part1 = PlayAckPart1(&buf[0..PLAY_ACK_PART1_LEN]);
        advance(&mut buf, PLAY_ACK_PART1_LEN);
        let tags = TagIter::new(buf);
        Ok(Self { part1, tags })
    }

    pub fn part1<'b>(&'b self) -> (r: &'b PlayAckPart1<'a>)
        ensures
            r@ == self@.part1,
    {
        &self.part1
    }

    /// A cursor over the tags.
    pub fn tags(&self) -> (r: TagIter<'a>)
        ensures
            r@ == self@.tags,
    {
        self.tags
    }
}

/// A filename structure read in place: the payload of a filename tag.
#[derive(Debug, Clone, Copy)]
pub struct FilenameRef<'a> {
    format: u8,
    filename: StrRef<'a>,
}

impl<'a> View for FilenameRef<'a> {
    type V = Filename;

    closed spec fn view(&self) -> Filename {
        Filename { format: self.format, filename: self.filename@ }
    }
}

impl<'a> FilenameRef<'a> {
    /// Decodes the payload of a filename tag.
    pub fn parse_from(data: &'a [u8]) -> (r: Result<Self, DecodeError>)
        ensures
            view_result(r) == filename_parse(data@),
    {
        if data.len() < 1 {
            return Err(DecodeError::TooShort { field: Field::Filename, need: 1, have: data.len() });
        }
        let mut buf = data;
        let format = get_u8(&mut buf);
        match StrRef::from_str_null(buf) {
            Some((_n, filename)) => Ok(Self { format, filename }),
            None => Err(DecodeError::MissingTerminator { field: Field::Filename }),
        }
    }

    pub fn format(&self) -> (r: u8)
        ensures
            r == self@.format,
    {
        self.format
    }

    pub fn filename<'b>(&'b self) -> (r: &'b StrRef<'a>)
        ensures
            r@ == self@.filename,
    {
        &self.filename
    }
}

/// A cancel read in place. Its view is its two bytes.
#[derive(Debug, Clone, Copy)]
pub struct CancelRef<'a>(&'a [u8]);

impl<'a> View for CancelRef<'a> {
    type V = Seq<u8>;

    closed spec fn view(&self) -> Seq<u8> {
        self.0@
    }
}

impl<'a> CancelRef<'a> {
    #[verifier::type_invariant]
    spec fn well_formed(self) -> bool {
        self.0@.len() == CANCEL_LEN
    }

    /// Decodes a cancel. Bytes after the first two are left alone.
    pub fn parse_from(data: &'a [u8]) -> (r: Result<Self, DecodeError>)
        ensures
            view_result(r) == cancel_parse(data@),
    {
        if data.len() < CANCEL_LEN {
            return Err(
                DecodeError::TooShort { field: Field::Cancel, need: CANCEL_LEN, have: data.len() },
            );
        }
        Ok(Self(&data[0..CANCEL_LEN]))
    }

    /// The code of the message being cancelled.
    pub fn op_code(&self) -> (r: u16)
        ensures
            r == be_u16(self@),
    {
        proof {
            use_type_invariant(self);
        }
        let mut buf = self.0;
        get_u16(&mut buf)
    }
}

/// A result-from-tag message read in place. Its view is its string, without
/// the terminator.
#[derive(Debug, Clone, Copy)]
pub struct ResFromTagRef<'a>(&'a [u8]);

impl<'a> View for ResFromTagRef<'a> {
    type V = Seq<u8>;

    closed spec fn view(&self) -> Seq<u8> {
        self.0@
    }
}

impl<'a> ResFromTagRef<'a> {
    /// Decodes a result-from-tag message. Bytes after the terminator are
    /// left alone.
    pub fn parse_from(data: &'a [u8]) -> (r: Result<Self, DecodeError>)
        ensures
            view_result(r) == res_from_tag_parse(data@),
    {
        if data.len() < 1 {
            return Err(DecodeError::TooShort { field: Field::ResFromTag, need: 1, have: data.len() });
        }
        match find_str_null(data) {
            Some(pos) => Ok(Self(&data[0..pos])),
            None => Err(DecodeError::MissingTerminator { field: Field::ResFromTag }),
        }
    }

    /// The bytes of the string.
    pub fn as_bytes(&self) -> (r: &'a [u8])
        ensures
            r@ == self@,
    {
        self.0
    }

    /// The string as text, where its bytes are UTF-8.
    pub fn to_utf8(&self) -> (r: Option<&'a str>)
        ensures
            r is Some <==> valid_utf8(self@),
            r matches Some(s) ==> s.spec_bytes() == self@,
    {
        str_from_utf8(self.0)
    }
}

} // verus!
