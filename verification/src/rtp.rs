//! Opening and closing RTP connections.
//!
//! An open request is a one-byte tag count and a run of RTP-info tags. The
//! payload of such a tag is a fixed first part of nine bytes (IPv4 address,
//! port as a big-endian `u16`, media type, internal payload type, negotiated
//! payload type), a zero-terminated attribute, a fixed second part of two
//! bytes (tele event, direction), and a run of zero-terminated strings up to
//! the end. The answers and the close request are a single byte each.
//!
//! The tag count is kept as it came. Iteration goes by the bytes that are
//! there, not by the count. Whether a count that disagrees with the tags is
//! worth a warning or fails the request is the caller's choice: see
//! `CountPolicy` and `check_tag_count`.

use crate::codes::TagType;
use crate::error::{view_result, DecodeError, Field};
use crate::strs::StrIter;
use crate::tag::{tag_parse, tag_run, Tag, TagIter, TagRef, TAG_HEADER_LENGTH};
use crate::wire::{advance, be_u16, find_str_null, first_null, get_u16, get_u8, has_null};
use vstd::prelude::*;

verus! {

/// Bytes of the first fixed part of an RTP info.
pub const RTP_INFO_PART1_LEN: usize = 9;

/// Bytes of the second fixed part of an RTP info.
pub const RTP_INFO_PART2_LEN: usize = 2;

/// Fewest bytes of an RTP info.
pub const RTP_INFO_MIN_LEN: usize = 18;

/// What an RTP info holds.
pub struct RtpInfo {
    /// The nine bytes of the first fixed part.
    pub part1: Seq<u8>,
    /// The attribute, without its terminator.
    pub attribute: Seq<u8>,
    /// The two bytes of the second fixed part.
    pub part2: Seq<u8>,
    /// The bytes of the trailing run of strings.
    pub part3: Seq<u8>,
}

/// What an open request holds.
pub struct OpenRtpConnect {
    /// The tag count as declared.
    pub num_tags: u8,
    /// The bytes of the run of tags.
    pub tags: Seq<u8>,
}

/// What to make of a tag count that disagrees with the tags that are there.
#[derive(Debug, Clone, Copy, PartialEq, Eq, Structural)]
pub enum CountPolicy {
    /// Report the difference and go on.
    Tolerate,
    /// Fail the request.
    Enforce,
}

/// Whether the run of an open request holds as many items as its count
/// declares, and what follows under `policy` where it does not.
pub open spec fn tag_count_verdict(m: OpenRtpConnect, policy: CountPolicy) -> Result<
    bool,
    DecodeError,
> {
    let found = tag_run(m.tags).len();
    if found == m.num_tags {
        Ok(true)
    } else if policy == CountPolicy::Tolerate {
        Ok(false)
    } else {
        Err(DecodeError::TagCountMismatch { count: m.num_tags, tags: found as usize })
    }
}

/// The RTP info that `s` holds.
pub open spec fn rtp_info_parse(s: Seq<u8>) -> Result<RtpInfo, DecodeError> {
    let after_part1 = s.skip(9);
    let after_attribute = after_part1.skip(first_null(after_part1) + 1);
    if s.len() < RTP_INFO_MIN_LEN {
        Err(
            DecodeError::TooShort {
                field: Field::RtpInfo,
                need: RTP_INFO_MIN_LEN,
                have: s.len() as usize,
            },
        )
    } else if !has_null(after_part1) {
        Err(DecodeError::MissingTerminator { field: Field::RtpInfoAttribute })
    } else if after_attribute.len() < RTP_INFO_PART2_LEN {
        Err(
            DecodeError::TooShort {
                field: Field::RtpInfoPart2,
                need: RTP_INFO_PART2_LEN,
                have: after_attribute.len() as usize,
            },
        )
    } else {
        Ok(
            RtpInfo {
                part1: s.take(9),
                attribute: after_part1.take(first_null(after_part1)),
                part2: after_attribute.take(2),
                part3: after_attribute.skip(2),
            },
        )
    }
}

/// The RTP info in one item of a tag run. A failed item stays the failure
/// it is; a tag with another code than RTP info is a failure of its own.
pub open spec fn rtp_info_of(item: Result<Tag, DecodeError>) -> Result<RtpInfo, DecodeError> {
    match item {
        Err(e) => Err(e),
        Ok(tag) => if tag.code != TagType::RTPINFO.spec_code() {
            Err(DecodeError::UnexpectedTag { expected: TagType::RTPINFO.spec_code(), found: tag.code })
        } else {
            rtp_info_parse(tag.payload)
        },
    }
}

/// What iterating over the RTP infos of the tag run `s` yields.
pub open spec fn rtp_info_run(s: Seq<u8>) -> Seq<Result<RtpInfo, DecodeError>> {
    tag_run(s).map_values(|item: Result<Tag, DecodeError>| rtp_info_of(item))
}

/// The open request that `s` holds.
pub open spec fn open_rtp_connect_parse(s: Seq<u8>) -> Result<OpenRtpConnect, DecodeError> {
    if s.len() < 1 {
        Err(DecodeError::TooShort { field: Field::OpenRtpConnect, need: 1, have: s.len() as usize })
    } else {
        Ok(OpenRtpConnect { num_tags: s[0], tags: s.skip(1) })
    }
}

/// The single byte that `s` holds for the message `field`.
pub open spec fn single_byte_parse(s: Seq<u8>, field: Field) -> Result<u8, DecodeError> {
    if s.len() < 1 {
        Err(DecodeError::TooShort { field, need: 1, have: s.len() as usize })
    } else {
        Ok(s[0])
    }
}

/// The first fixed part of an RTP info. Its view is its nine bytes.
#[derive(Debug, Clone, Copy)]
pub struct RtpInfoPart1<'a>(&'a [u8]);

impl<'a> View for RtpInfoPart1<'a> {
    type V = Seq<u8>;

    closed spec fn view(&self) -> Seq<u8> {
        self.0@
    }
}

impl<'a> RtpInfoPart1<'a> {
    #[verifier::type_invariant]
    spec fn well_formed(self) -> bool {
        self.0@.len() == RTP_INFO_PART1_LEN
    }

    /// The four bytes of the IPv4 address, first octet first.
    pub fn ip(&self) -> (r: [u8; 4])
        ensures
            r@ == self@.take(4),
    {
        proof {
            use_type_invariant(self);
        }
        [self.0[0], self.0[1], self.0[2], self.0[3]]
    }

    pub fn port(&self) -> (r: u16)
        ensures
            r == be_u16(self@.skip(4)),
    {
        proof {
            use_type_invariant(self);
        }
        let mut buf = self.0;
        advance(&mut buf, 4);
        get_u16(&mut buf)
    }

    pub fn media_type(&self) -> (r: u8)
        ensures
            r == self@[6],
    {
        proof {
            use_type_invariant(self);
        }
        self.0[6]
    }

    pub fn internal_pltyp(&self) -> (r: u8)
        ensures
            r == self@[7],
    {
        proof {
            use_type_invariant(self);
        }
        self.0[7]
    }

    pub fn nego_pltyp(&self) -> (r: u8)
        ensures
            r == self@[8],
    {
        proof {
            use_type_invariant(self);
        }
        self.0[8]
    }
}

/// The second fixed part of an RTP info. Its view is its two bytes.
#[derive(Debug, Clone, Copy)]
pub struct RtpInfoPart2<'a>(&'a [u8]);

impl<'a> View for RtpInfoPart2<'a> {
    type V = Seq<u8>;

    closed spec fn view(&self) -> Seq<u8> {
        self.0@
    }
}

impl<'a> RtpInfoPart2<'a> {
    #[verifier::type_invariant]
    spec fn well_formed(self) -> bool {
        self.0@.len() == RTP_INFO_PART2_LEN
    }

    pub fn tele_event(&self) -> (r: u8)
        ensures
            r == self@[0],
    {
        proof {
            use_type_invariant(self);
        }
        self.0[0]
    }

    pub fn direction(&self) -> (r: u8)
        ensures
            r == self@[1],
    {
        proof {
            use_type_invariant(self);
        }
        self.0[1]
    }
}

/// An RTP info read in place.
#[derive(Debug, Clone, Copy)]
pub struct RtpInfoRef<'a> {
    fixed_part1: RtpInfoPart1<'a>,
    attribute: &'a [u8],
    fixed_part2: RtpInfoPart2<'a>,
    part3: StrIter<'a>,
}

impl<'a> View for RtpInfoRef<'a> {
    type V = RtpInfo;

    closed spec fn view(&self) -> RtpInfo {
        RtpInfo {
            part1: self.fixed_part1@,
            attribute: self.attribute@,
            part2: self.fixed_part2@,
            part3: self.part3@,
        }
    }
}

impl<'a> RtpInfoRef<'a> {
    /// Decodes the payload of an RTP-info tag in one pass over `data`.
    pub fn parse_from(data: &'a [u8]) -> (r: Result<Self, DecodeError>)
        ensures
            view_result(r) == rtp_info_parse(data@),
    {
        if data.len() < RTP_INFO_MIN_LEN {
            return Err(
                DecodeError::TooShort {
                    field: Field::RtpInfo,
                    need: RTP_INFO_MIN_LEN,
                    have: data.len(),
                },
            );
        }
        let mut buf = data;

        let fixed_part1 = RtpInfoPart1(&buf[0..RTP_INFO_PART1_LEN]);
        advance(&mut buf, RTP_INFO_PART1_LEN);

        let pos = match find_str_null(buf) {
            Some(pos) => pos,
            None => {
                return Err(DecodeError::MissingTerminator { field: Field::RtpInfoAttribute });
            },
        };
        let attribute = &buf[0..pos];
        advance(&mut buf, pos + 1);

        if buf.len() < RTP_INFO_PART2_LEN {
            return Err(
                DecodeError::TooShort {
                    field: Field::RtpInfoPart2,
                    need: RTP_INFO_PART2_LEN,
                    have: buf.len(),
                },
            );
        }
        let fixed_part2 = RtpInfoPart2(&buf[0..RTP_INFO_PART2_LEN]);
        advance(&mut buf, RTP_INFO_PART2_LEN);

        let part3 = StrIter::new(buf);

        Ok(Self { fixed_part1, attribute, fixed_part2, part3 })
    }

    /// Reads the RTP info out of one item of a tag run.
    pub fn from_tag(item: Result<TagRef<'a>, DecodeError>) -> (r: Result<Self, DecodeError>)
        ensures
            view_result(r) == rtp_info_of(view_result(item)),
    {
        match item {
            Ok(tag) => {
                if tag.tag_code() != TagType::RTPINFO.code() {
                    return Err(
                        DecodeError::UnexpectedTag {
                            expected: TagType::RTPINFO.code(),
                            found: tag.tag_code(),
                        },
                    );
                }
                Self::parse_from(tag.payload())
            },
            Err(e) => Err(e),
        }
    }

    pub fn part1<'b>(&'b self) -> (r: &'b RtpInfoPart1<'a>)
        ensures
            r@ == self@.part1,
    {
        &self.fixed_part1
    }

    pub fn part2<'b>(&'b self) -> (r: &'b RtpInfoPart2<'a>)
        ensures
            r@ == self@.part2,
    {
        &self.fixed_part2
    }

    /// The attribute, without its terminator.
    pub fn attribute(&self) -> (r: &'a [u8])
        ensures
            r@ == self@.attribute,
    {
        self.attribute
    }

    /// A cursor over the trailing run of description strings.
    pub fn desc(&self) -> (r: StrIter<'a>)
        ensures
            r@ == self@.part3,
    {
        self.part3
    }
}

/// A cursor over the RTP infos of a tag run. Its view is the bytes not yet
/// read. Copying the cursor gives an independent one at the same place.
#[derive(Debug, Clone, Copy)]
pub struct RtpInfoIter<'a>(TagIter<'a>);

impl<'a> View for RtpInfoIter<'a> {
    type V = Seq<u8>;

    closed spec fn view(&self) -> Seq<u8> {
        self.0@
    }
}

impl<'a> RtpInfoIter<'a> {
    /// Reads the next tag as an RTP info and moves past it. The run ends at
    /// the end of the buffer, or behind the first tag that does not frame.
    pub fn next(&mut self) -> (r: Option<Result<RtpInfoRef<'a>, DecodeError>>)
        ensures
            r is Some <==> old(self)@.len() > 0,
            r matches Some(item) ==> view_result(item) == rtp_info_of(tag_parse(old(self)@)),
            final(self)@ == match tag_parse(old(self)@) {
                Ok(t) => old(self)@.skip(TAG_HEADER_LENGTH + t.payload.len()),
                Err(_) => if old(self)@.len() > 0 {
                    Seq::<u8>::empty()
                } else {
                    old(self)@
                },
            },
            r matches Some(item) ==> rtp_info_run(old(self)@) == seq![view_result(item)]
                + rtp_info_run(final(self)@),
            r is None ==> rtp_info_run(old(self)@) == Seq::<Result<RtpInfo, DecodeError>>::empty(),
    {
        match self.0.next() {
            Some(item) => Some(RtpInfoRef::from_tag(item)),
            None => None,
        }
    }

    /// All that iterating from here yields, in order.
    pub fn collect(self) -> (r: Vec<Result<RtpInfoRef<'a>, DecodeError>>)
        ensures
            r@.len() == rtp_info_run(self@).len(),
            forall|i: int|
                0 <= i < r@.len() ==> view_result(#[trigger] r@[i]) == rtp_info_run(self@)[i],
    {
        let mut it = self;
        let mut out: Vec<Result<RtpInfoRef<'a>, DecodeError>> = Vec::new();
        loop
            invariant
                rtp_info_run(self@).len() == out@.len() + rtp_info_run(it@).len(),
                forall|i: int|
                    0 <= i < out@.len() ==> view_result(#[trigger] out@[i]) == rtp_info_run(
                        self@,
                    )[i],
                forall|i: int|
                    0 <= i < rtp_info_run(it@).len() ==> #[trigger] rtp_info_run(it@)[i]
                        == rtp_info_run(self@)[out@.len() + i],
            ensures
                out@.len() == rtp_info_run(self@).len(),
            decreases it@.len(),
        {
            let ghost before = it@;
            let ghost done = out@.len();
            match it.next() {
                Some(item) => {
                    proof {
                        assert(rtp_info_run(before)[0] == view_result(item));
                        assert forall|i: int|
                            0 <= i < rtp_info_run(it@).len() implies #[trigger] rtp_info_run(it@)[i]
                            == rtp_info_run(self@)[done + 1 + i] by {
                            assert(rtp_info_run(it@)[i] == rtp_info_run(before)[i + 1]);
                        }
                    }
                    out.push(item);
                },
                None => {
                    break ;
                },
            }
        }
        out
    }
}

/// An open request read in place.
#[derive(Debug, Clone, Copy)]
pub struct OpenRtpConnectRef<'a> {
    num_tags: u8,
    tag_iter: TagIter<'a>,
}

impl<'a> View for OpenRtpConnectRef<'a> {
    type V = OpenRtpConnect;

    closed spec fn view(&self) -> OpenRtpConnect {
        OpenRtpConnect { num_tags: self.num_tags, tags: self.tag_iter@ }
    }
}

impl<'a> OpenRtpConnectRef<'a> {
    /// Decodes an open request. The tags are not looked at yet.
    pub fn parse_from(data: &'a [u8]) -> (r: Result<Self, DecodeError>)
        ensures
            view_result(r) == open_rtp_connect_parse(data@),
    {
        if data.len() < 1 {
            return Err(
                DecodeError::TooShort { field: Field::OpenRtpConnect, need: 1, have: data.len() },
            );
        }
        let mut buf = data;
        let num_tags = get_u8(&mut buf);
        Ok(Self { num_tags, tag_iter: TagIter::new(buf) })
    }

    /// The tag count as declared.
    pub fn num_tags(&self) -> (r: u8)
        ensures
            r == self@.num_tags,
    {
        self.num_tags
    }

    /// A cursor over the tags, whatever their codes.
    pub fn tag_iter(&self) -> (r: TagIter<'a>)
        ensures
            r@ == self@.tags,
    {
        self.tag_iter
    }

    /// A cursor over the tags, each read as an RTP info.
    pub fn rtpinfo_iter(&self) -> (r: RtpInfoIter<'a>)
        ensures
            r@ == self@.tags,
    {
        RtpInfoIter(self.tag_iter)
    }

    /// Holds the declared count against the tags that are there. With
    /// `Tolerate`, the answer says whether they agree; with `Enforce`, a
    /// difference is a failure.
    pub fn check_tag_count(&self, policy: CountPolicy) -> (r: Result<bool, DecodeError>)
        ensures
            r == tag_count_verdict(self@, policy),
    {
        let found = self.tag_iter.collect().len();
        if found == self.num_tags as usize {
            Ok(true)
        } else {
            match policy {
                CountPolicy::Tolerate => Ok(false),
                CountPolicy::Enforce => Err(
                    DecodeError::TagCountMismatch { count: self.num_tags, tags: found },
                ),
            }
        }
    }
}

/// The answer to an open request: one byte.
#[derive(Debug, Clone, Copy)]
pub struct OpenRtpConnectAck(u8);

impl View for OpenRtpConnectAck {
    type V = u8;

    closed spec fn view(&self) -> u8 {
        self.0
    }
}

impl OpenRtpConnectAck {
    pub fn parse_from(data: &[u8]) -> (r: Result<Self, DecodeError>)
        ensures
            view_result(r) == single_byte_parse(data@, Field::OpenRtpConnectAck),
    {
        if data.len() < 1 {
            return Err(
                DecodeError::TooShort { field: Field::OpenRtpConnectAck, need: 1, have: data.len() },
            );
        }
        Ok(Self(data[0]))
    }

    pub fn value(&self) -> (r: u8)
        ensures
            r == self@,
    {
        self.0
    }
}

/// A close request: one byte.
#[derive(Debug, Clone, Copy)]
pub struct CloseRtpConnect(u8);

impl View for CloseRtpConnect {
    type V = u8;

    closed spec fn view(&self) -> u8 {
        self.0
    }
}

impl CloseRtpConnect {
    pub fn parse_from(data: &[u8]) -> (r: Result<Self, DecodeError>)
        ensures
            view_result(r) == single_byte_parse(data@, Field::CloseRtpConnect),
    {
        if data.len() < 1 {
            return Err(
                DecodeError::TooShort { field: Field::CloseRtpConnect, need: 1, have: data.len() },
            );
        }
        Ok(Self(data[0]))
    }

    pub fn value(&self) -> (r: u8)
        ensures
            r == self@,
    {
        self.0
    }
}

/// The answer to a close request: one byte.
#[derive(Debug, Clone, Copy)]
pub struct CloseRtpConnectAck(u8);

impl View for CloseRtpConnectAck {
    type V = u8;

    closed spec fn view(&self) -> u8 {
        self.0
    }
}

impl CloseRtpConnectAck {
    pub fn parse_from(data: &[u8]) -> (r: Result<Self, DecodeError>)
        ensures
            view_result(r) == single_byte_parse(data@, Field::CloseRtpConnectAck),
    {
        if data.len() < 1 {
            return Err(
                DecodeError::TooShort { field: Field::CloseRtpConnectAck, need: 1, have: data.len() },
            );
        }
        Ok(Self(data[0]))
    }

    pub fn value(&self) -> (r: u8)
        ensures
            r == self@,
    {
        self.0
    }
}

} // verus!
