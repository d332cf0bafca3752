//! Registration: the peer's address and the codecs it offers.
//!
//! A register payload is four address bytes and one media-info tag. Media
//! info is one T38 byte and three codec lists (audio, video, fax). A codec
//! list is a one-byte count and that many descriptors; a descriptor is an
//! index byte, a payload-type byte and a zero-terminated name.

use crate::codes::TagType;
use crate::error::{deep_sized, view_result, view_sized, DecodeError, Field};
use crate::tag::{tag_parse, TagRef};
use crate::wire::{
    advance, find_str_null, first_null, get_u8, has_null, lemma_first_null_exists, str_from_utf8,
};
use vstd::prelude::*;
use vstd::string::StringSliceAdditionalSpecFns;
use vstd::utf8::valid_utf8;

verus! {

/// What a codec descriptor holds.
pub struct CodecDesc {
    pub index: u8,
    pub payload_type: u8,
    /// The codec name, without its terminator.
    pub map: Seq<u8>,
}

/// What a media-info structure holds.
pub struct MediaInfo {
    pub support_t38: bool,
    pub audio_codecs: Seq<CodecDesc>,
    pub video_codecs: Seq<CodecDesc>,
    pub fax_codecs: Seq<CodecDesc>,
}

/// What a register payload holds.
pub struct Register {
    /// The four bytes of the IPv4 address, first octet first.
    pub ip: Seq<u8>,
    pub media_info: MediaInfo,
}

/// Fewest bytes of a codec descriptor: index, payload type, terminator.
pub const CODEC_DESC_MIN_LEN: usize = 3;

/// Fewest bytes of media info: the T38 byte and three list counts.
pub const MEDIA_INFO_MIN_LEN: usize = 4;

/// Fewest bytes of a register payload: the address and the least media info.
pub const REGISTER_MIN_LEN: usize = 8;

/// The descriptor at the front of `s`, and the bytes it takes there.
pub open spec fn codec_desc_parse(s: Seq<u8>) -> Result<(int, CodecDesc), DecodeError> {
    if s.len() < CODEC_DESC_MIN_LEN {
        Err(
            DecodeError::TooShort {
                field: Field::CodecDesc,
                need: CODEC_DESC_MIN_LEN,
                have: s.len() as usize,
            },
        )
    } else if !has_null(s.skip(2)) {
        Err(DecodeError::MissingTerminator { field: Field::CodecMapStr })
    } else {
        Ok(
            (
                first_null(s.skip(2)) + 3,
                CodecDesc {
                    index: s[0],
                    payload_type: s[1],
                    map: s.skip(2).take(first_null(s.skip(2))),
                },
            ),
        )
    }
}

/// `rest` with `n` more bytes consumed and `done` decoded before it.
pub open spec fn codecs_after(
    n: int,
    done: Seq<CodecDesc>,
    rest: Result<(int, Seq<CodecDesc>), DecodeError>,
) -> Result<(int, Seq<CodecDesc>), DecodeError> {
    match rest {
        Ok((m, ds)) => Ok((n + m, done + ds)),
        Err(e) => Err(e),
    }
}

/// `count` descriptors from the front of `s`, and the bytes they take. The
/// first descriptor that does not parse fails them all.
pub open spec fn codec_descs_parse(s: Seq<u8>, count: nat) -> Result<
    (int, Seq<CodecDesc>),
    DecodeError,
>
    decreases count,
{
    if count == 0 {
        Ok((0, Seq::empty()))
    } else {
        match codec_desc_parse(s) {
            Ok((n, d)) => codecs_after(n, seq![d], codec_descs_parse(s.skip(n), (count - 1) as nat)),
            Err(e) => Err(e),
        }
    }
}

/// The codec list at the front of `s`: a count byte, then that many
/// descriptors.
pub open spec fn codec_list_parse(s: Seq<u8>) -> Result<(int, Seq<CodecDesc>), DecodeError> {
    if s.len() < 1 {
        Err(DecodeError::TooShort { field: Field::CodecList, need: 1, have: s.len() as usize })
    } else {
        codecs_after(1, Seq::empty(), codec_descs_parse(s.skip(1), s[0] as nat))
    }
}

/// The media info at the front of `s`, and the bytes it takes. A T38 byte of
/// 1 says that T38 is not supported; every other value says that it is.
pub open spec fn media_info_parse(s: Seq<u8>) -> Result<(int, MediaInfo), DecodeError> {
    if s.len() < MEDIA_INFO_MIN_LEN {
        Err(
            DecodeError::TooShort {
                field: Field::MediaInfo,
                need: MEDIA_INFO_MIN_LEN,
                have: s.len() as usize,
            },
        )
    } else {
        match codec_list_parse(s.skip(1)) {
            Err(e) => Err(e),
            Ok((na, audio)) => match codec_list_parse(s.skip(1 + na)) {
                Err(e) => Err(e),
                Ok((nv, video)) => match codec_list_parse(s.skip(1 + na + nv)) {
                    Err(e) => Err(e),
                    Ok((nf, fax)) => Ok(
                        (
                            1 + na + nv + nf,
                            MediaInfo {
                                support_t38: s[0] != 1,
                                audio_codecs: audio,
                                video_codecs: video,
                                fax_codecs: fax,
                            },
                        ),
                    ),
                },
            },
        }
    }
}

/// The register payload `s`: the address, then a tag that must be a
/// media-info tag and whose payload must hold media info.
pub open spec fn register_parse(s: Seq<u8>) -> Result<Register, DecodeError> {
    if s.len() < REGISTER_MIN_LEN {
        Err(
            DecodeError::TooShort {
                field: Field::Register,
                need: REGISTER_MIN_LEN,
                have: s.len() as usize,
            },
        )
    } else {
        match tag_parse(s.skip(4)) {
            Err(e) => Err(e),
            Ok(tag) => if tag.code != TagType::MEDIAINFO.spec_code() {
                Err(
                    DecodeError::UnexpectedTag {
                        expected: TagType::MEDIAINFO.spec_code(),
                        found: tag.code,
                    },
                )
            } else {
                match media_info_parse(tag.payload) {
                    Err(e) => Err(e),
                    Ok((_, media_info)) => Ok(Register { ip: s.take(4), media_info }),
                }
            },
        }
    }
}

/// Descriptors never take more bytes than there are.
pub proof fn lemma_codec_descs_size(s: Seq<u8>, count: nat)
    ensures
        codec_descs_parse(s, count) matches Ok((n, ds)) ==> 0 <= n <= s.len() && ds.len() == count,
    decreases count,
{
    if count > 0 {
        if let Ok((n, d)) = codec_desc_parse(s) {
            lemma_first_null_exists(s.skip(2));
            lemma_codec_descs_size(s.skip(n), (count - 1) as nat);
        }
    }
}

/// A codec list never takes more bytes than there are, and holds as many
/// descriptors as its count byte says.
pub proof fn lemma_codec_list_size(s: Seq<u8>)
    ensures
        codec_list_parse(s) matches Ok((n, ds)) ==> 1 <= n <= s.len() && ds.len() == s[0],
{
    if s.len() >= 1 {
        lemma_codec_descs_size(s.skip(1), s[0] as nat);
    }
}

/// A codec descriptor read in place. Its name is borrowed from the buffer it
/// was parsed from.
#[derive(Debug, Clone, Copy)]
pub struct CodecDescRef<'a> {
    index: u8,
    payload_type: u8,
    mapdata: &'a [u8],
}

impl<'a> View for CodecDescRef<'a> {
    type V = CodecDesc;

    closed spec fn view(&self) -> CodecDesc {
        CodecDesc { index: self.index, payload_type: self.payload_type, map: self.mapdata@ }
    }
}

impl<'a> DeepView for CodecDescRef<'a> {
    type V = CodecDesc;

    open spec fn deep_view(&self) -> CodecDesc {
        self@
    }
}

impl<'a> CodecDescRef<'a> {
    #[verifier::type_invariant]
    spec fn well_formed(self) -> bool {
        self.mapdata@.len() + CODEC_DESC_MIN_LEN <= usize::MAX
    }

    /// Reads a codec list from the front of `data` and says how many bytes
    /// it takes there.
    pub fn parse_vec_from(data: &'a [u8]) -> (r: Result<(usize, Vec<Self>), DecodeError>)
        ensures
            deep_sized(r) == codec_list_parse(data@),
    {
        if data.len() < 1 {
            return Err(
                DecodeError::TooShort { field: Field::CodecList, need: 1, have: data.len() },
            );
        }
        let mut buf = data;
        let count = get_u8(&mut buf) as usize;
        let mut v: Vec<Self> = Vec::with_capacity(count);
        let mut i: usize = 0;
        while i < count
            invariant
                i <= count,
                buf@.len() <= data@.len(),
                buf@ == data@.skip(data@.len() - buf@.len()),
                codec_list_parse(data@) == codecs_after(
                    data@.len() - buf@.len(),
                    v.deep_view(),
                    codec_descs_parse(buf@, (count - i) as nat),
                ),
            decreases count - i,
        {
            let ghost before = buf@;
            let ghost done = v.deep_view();
            match Self::parse_from(buf) {
                Err(e) => {
                    return Err(e);
                },
                Ok((len, obj)) => {
                    proof {
                        lemma_first_null_exists(before.skip(2));
                    }
                    v.push(obj);
                    advance(&mut buf, len);
                    proof {
                        assert(v.deep_view() == done + seq![obj@]);
                        let rest = codec_descs_parse(buf@, (count - i - 1) as nat);
                        if let Ok((m, ds)) = rest {
                            assert((done + seq![obj@]) + ds == done + (seq![obj@] + ds));
                        }
                    }
                },
            }
            i = i + 1;
        }
        Ok((data.len() - buf.len(), v))
    }

    /// Reads one descriptor from the front of `data` and says how many bytes
    /// it takes there.
    pub fn parse_from(data: &'a [u8]) -> (r: Result<(usize, Self), DecodeError>)
        ensures
            view_sized(r) == codec_desc_parse(data@),
    {
        if data.len() < CODEC_DESC_MIN_LEN {
            return Err(
                DecodeError::TooShort {
                    field: Field::CodecDesc,
                    need: CODEC_DESC_MIN_LEN,
                    have: data.len(),
                },
            );
        }
        let mut buf = data;
        let index = get_u8(&mut buf);
        let payload_type = get_u8(&mut buf);
        assert(buf@ == data@.skip(2));
        match find_str_null(buf) {
            None => Err(DecodeError::MissingTerminator { field: Field::CodecMapStr }),
            Some(pos) => Ok((pos + 3, Self { index, payload_type, mapdata: &buf[0..pos] })),
        }
    }

    /// Bytes of the descriptor on the wire, terminator included.
    pub fn len(&self) -> (r: usize)
        ensures
            r == self@.map.len() + CODEC_DESC_MIN_LEN,
    {
        proof {
            use_type_invariant(self);
        }
        self.mapdata.len() + CODEC_DESC_MIN_LEN
    }

    pub fn index(&self) -> (r: u8)
        ensures
            r == self@.index,
    {
        self.index
    }

    pub fn payload_type(&self) -> (r: u8)
        ensures
            r == self@.payload_type,
    {
        self.payload_type
    }

    /// The codec name as bytes.
    pub fn map_str_data(&self) -> (r: &'a [u8])
        ensures
            r@ == self@.map,
    {
        self.mapdata
    }

    /// The codec name as text, where its bytes are UTF-8.
    pub fn map_str_utf8(&self) -> (r: Option<&'a str>)
        ensures
            r is Some <==> valid_utf8(self@.map),
            r matches Some(s) ==> s.spec_bytes() == self@.map,
    {
        str_from_utf8(self.mapdata)
    }
}

/// Media info, decoded. The codec names are borrowed from the buffer it was
/// parsed from.
#[derive(Debug)]
pub struct MediaInfoRef<'a> {
    pub support_t38: bool,
    pub audio_codecs: Vec<CodecDescRef<'a>>,
    pub video_codecs: Vec<CodecDescRef<'a>>,
    pub fax_codecs: Vec<CodecDescRef<'a>>,
}

impl<'a> View for MediaInfoRef<'a> {
    type V = MediaInfo;

    open spec fn view(&self) -> MediaInfo {
        MediaInfo {
            support_t38: self.support_t38,
            audio_codecs: self.audio_codecs.deep_view(),
            video_codecs: self.video_codecs.deep_view(),
            fax_codecs: self.fax_codecs.deep_view(),
        }
    }
}

impl<'a> MediaInfoRef<'a> {
    /// Reads media info from the front of `data` and says how many bytes it
    /// takes there. T38 counts as supported unless the first byte is
    /// exactly 1.
    pub fn parse_from(data: &'a [u8]) -> (r: Result<(usize, Self), DecodeError>)
        ensures
            view_sized(r) == media_info_parse(data@),
            r matches Ok((_, m)) ==> m.support_t38 == (data@[0] != 1),
    {
        if data.len() < MEDIA_INFO_MIN_LEN {
            return Err(
                DecodeError::TooShort {
                    field: Field::MediaInfo,
                    need: MEDIA_INFO_MIN_LEN,
                    have: data.len(),
                },
            );
        }
        let mut buf = data;
        let support_t38 = get_u8(&mut buf) != 1;

        proof {
            lemma_codec_list_size(buf@);
        }
        let (parsed_len, audio_codecs) = match CodecDescRef::parse_vec_from(buf) {
            Ok(x) => x,
            Err(e) => {
                return Err(e);
            },
        };
        advance(&mut buf, parsed_len);
        assert(buf@ == data@.skip(1 + parsed_len));
        let ghost na = parsed_len as int;

        proof {
            lemma_codec_list_size(buf@);
        }
        let (parsed_len, video_codecs) = match CodecDescRef::parse_vec_from(buf) {
            Ok(x) => x,
            Err(e) => {
                return Err(e);
            },
        };
        advance(&mut buf, parsed_len);
        assert(buf@ == data@.skip(1 + na + parsed_len));

        proof {
            lemma_codec_list_size(buf@);
        }
        let (parsed_len, fax_codecs) = match CodecDescRef::parse_vec_from(buf) {
            Ok(x) => x,
            Err(e) => {
                return Err(e);
            },
        };
        advance(&mut buf, parsed_len);

        Ok((data.len() - buf.len(), Self { support_t38, audio_codecs, video_codecs, fax_codecs }))
    }
}

/// A register payload, decoded.
#[derive(Debug)]
pub struct RegisterRef<'a> {
    /// The four bytes of the peer's IPv4 address, first octet first.
    pub ip: [u8; 4],
    pub media_info: MediaInfoRef<'a>,
}

impl<'a> View for RegisterRef<'a> {
    type V = Register;

    open spec fn view(&self) -> Register {
        Register { ip: self.ip@, media_info: self.media_info@ }
    }
}

impl<'a> RegisterRef<'a> {
    /// Decodes a register payload.
    pub fn parse_from(data: &'a [u8]) -> (r: Result<Self, DecodeError>)
        ensures
            view_result(r) == register_parse(data@),
    {
        if data.len() < REGISTER_MIN_LEN {
            return Err(
                DecodeError::TooShort {
                    field: Field::Register,
                    need: REGISTER_MIN_LEN,
                    have: data.len(),
                },
            );
        }
        let mut buf = data;
        advance(&mut buf, 4);
        let tag = match TagRef::parse_from(buf) {
            Ok(tag) => tag,
            Err(e) => {
                return Err(e);
            },
        };
        if tag.tag_code() != TagType::MEDIAINFO.code() {
            return Err(
                DecodeError::UnexpectedTag {
                    expected: TagType::MEDIAINFO.code(),
                    found: tag.tag_code(),
                },
            );
        }
        let (_n, media_info) = match MediaInfoRef::parse_from(tag.payload()) {
            Ok(x) => x,
            Err(e) => {
                return Err(e);
            },
        };
        let ip = [data[0], data[1], data[2], data[3]];
        assert(ip@ == data@.take(4));
        Ok(Self { ip, media_info })
    }
}

} // verus!
