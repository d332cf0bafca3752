//! Tagged sub-structures: a one-byte code, a two-byte big-endian length, and
//! that many bytes of payload.

use crate::codes::{known, TagType};
use crate::error::{view_result, DecodeError, Field};
use crate::wire::{advance, be_u16, get_u16, get_u8};
use vstd::prelude::*;
use vstd::std_specs::convert::TryFromSpec;

verus! {

/// What a tag holds: its code and its payload.
pub struct Tag {
    pub code: u8,
    pub payload: Seq<u8>,
}

/// Bytes of a tag before its payload.
pub const TAG_HEADER_LENGTH: usize = 3;

/// The tag at the front of `s`. There is none where `s` is shorter than the
/// tag header, or where the declared length reaches beyond `s`.
pub open spec fn tag_parse(s: Seq<u8>) -> Result<Tag, DecodeError> {
    if s.len() < TAG_HEADER_LENGTH {
        Err(DecodeError::TooShort { field: Field::Tag, need: TAG_HEADER_LENGTH, have: s.len() as usize })
    } else if be_u16(s.skip(1)) > s.len() - TAG_HEADER_LENGTH {
        Err(
            DecodeError::LengthOverrun {
                field: Field::Tag,
                declared: be_u16(s.skip(1)) as usize,
                available: (s.len() - TAG_HEADER_LENGTH) as usize,
            },
        )
    } else {
        Ok(Tag { code: s[0], payload: s.subrange(3, 3 + be_u16(s.skip(1))) })
    }
}

/// What iterating over `s` yields: the tags in the order they stand, up to
/// the end of `s` or up to and including the first failure.
pub open spec fn tag_run(s: Seq<u8>) -> Seq<Result<Tag, DecodeError>>
    decreases s.len(),
{
    if s.len() == 0 {
        Seq::empty()
    } else {
        match tag_parse(s) {
            Ok(t) => seq![Ok(t)] + tag_run(s.skip(TAG_HEADER_LENGTH + t.payload.len())),
            Err(e) => seq![Err(e)],
        }
    }
}

/// `r` is one whole tag: a tag header whose declared length is exactly the
/// count of bytes that follow it.
pub open spec fn is_tag_record(r: Seq<u8>) -> bool {
    r.len() >= TAG_HEADER_LENGTH && be_u16(r.skip(1)) == r.len() - TAG_HEADER_LENGTH
}

/// Over a buffer made of whole tags laid end to end, iteration yields one
/// tag for each of them, in their order, and nothing else. Over an empty
/// buffer it yields nothing.
pub proof fn lemma_tag_run_of_records(records: Seq<Seq<u8>>)
    requires
        forall|i: int| 0 <= i < records.len() ==> is_tag_record(#[trigger] records[i]),
    ensures
        tag_run(Seq::<u8>::empty()).len() == 0,
        tag_run(records.flatten()).len() == records.len(),
        forall|i: int|
            0 <= i < records.len() ==> #[trigger] tag_run(records.flatten())[i] == Ok::<
                Tag,
                DecodeError,
            >(Tag { code: records[i][0], payload: records[i].skip(3) }),
    decreases records.len(),
{
    if records.len() > 0 {
        let first = records.first();
        let rest = records.drop_first();
        let s = records.flatten();
        assert(s.subrange(3, first.len() as int) == first.skip(3));
        assert(s.skip(first.len() as int) == rest.flatten());
        lemma_tag_run_of_records(rest);
    }
}

/// A tag read in place. Its payload is borrowed from the buffer it was
/// parsed from.
#[derive(Debug, Clone, Copy)]
pub struct TagRef<'a> {
    tag: u8,
    payload: &'a [u8],
}

impl<'a> View for TagRef<'a> {
    type V = Tag;

    closed spec fn view(&self) -> Tag {
        Tag { code: self.tag, payload: self.payload@ }
    }
}

impl<'a> TagRef<'a> {
    #[verifier::type_invariant]
    spec fn well_formed(self) -> bool {
        self.payload@.len() <= u16::MAX
    }

    /// Reads the tag at the front of `data`. Bytes after the tag are left
    /// alone.
    pub fn parse_from(data: &'a [u8]) -> (r: Result<Self, DecodeError>)
        ensures
            view_result(r) == tag_parse(data@),
            data@.len() < TAG_HEADER_LENGTH ==> (r matches Err(e) && e.is_framing()),
            data@.len() >= TAG_HEADER_LENGTH && be_u16(data@.skip(1)) > data@.len()
                - TAG_HEADER_LENGTH ==> (r matches Err(e) && e.is_framing()),
    {
        if data.len() < TAG_HEADER_LENGTH {
            return Err(
                DecodeError::TooShort { field: Field::Tag, need: TAG_HEADER_LENGTH, have: data.len() },
            );
        }
        let mut buf = data;
        let tag = get_u8(&mut buf);
        let length = get_u16(&mut buf) as usize;
        if length > buf.len() {
            return Err(
                DecodeError::LengthOverrun {
                    field: Field::Tag,
                    declared: length,
                    available: buf.len(),
                },
            );
        }
        Ok(Self { tag, payload: &data[TAG_HEADER_LENGTH..TAG_HEADER_LENGTH + length] })
    }

    /// The raw code, known or not.
    pub fn tag_code(&self) -> (r: u8)
        ensures
            r == self@.code,
    {
        self.tag
    }

    /// The kind of tag, where the code is a known one.
    pub fn tag_type(&self) -> (r: Option<TagType>)
        ensures
            r == known(TagType::try_from_spec(self@.code)),
    {
        match TagType::try_from(self.tag) {
            Ok(t) => Some(t),
            Err(_) => None,
        }
    }

    /// The payload: at most 65535 bytes, as its length is declared in two.
    pub fn payload(&self) -> (r: &'a [u8])
        ensures
            r@ == self@.payload,
            r@.len() <= u16::MAX,
    {
        proof {
            use_type_invariant(self);
        }
        self.payload
    }
}

/// A cursor over a run of tags. Its view is the bytes not yet read. Copying
/// the cursor gives an independent one at the same place.
#[derive(Debug, Clone, Copy)]
pub struct TagIter<'a>(&'a [u8]);

impl<'a> View for TagIter<'a> {
    type V = Seq<u8>;

    closed spec fn view(&self) -> Seq<u8> {
        self.0@
    }
}

impl<'a> TagIter<'a> {
    /// A cursor at the front of `data`.
    pub fn new(data: &'a [u8]) -> (r: Self)
        ensures
            r@ == data@,
    {
        Self(data)
    }

    /// Reads the next tag and moves past it. At the end of the buffer there
    /// is nothing to read. A tag that does not parse is reported once, and
    /// the rest of the buffer is dropped: the run ends there.
    pub fn next(&mut self) -> (r: Option<Result<TagRef<'a>, DecodeError>>)
        ensures
            r is Some <==> old(self)@.len() > 0,
            r matches Some(item) ==> view_result(item) == tag_parse(old(self)@),
            r matches Some(Ok(t)) ==> final(self)@ == old(self)@.skip(
                TAG_HEADER_LENGTH + t@.payload.len(),
            ),
            r matches Some(Err(_)) ==> final(self)@ == Seq::<u8>::empty(),
            r is None ==> final(self)@ == old(self)@,
            r matches Some(item) ==> tag_run(old(self)@) == seq![view_result(item)] + tag_run(
                final(self)@,
            ),
            r is None ==> tag_run(old(self)@) == Seq::<Result<Tag, DecodeError>>::empty(),
    {
        let buf = self.0;
        if buf.len() == 0 {
            return None;
        }
        match TagRef::parse_from(buf) {
            Ok(tag) => {
                let mut rest = buf;
                advance(&mut rest, tag.payload().len() + TAG_HEADER_LENGTH);
                self.0 = rest;
                Some(Ok(tag))
            },
            Err(e) => {
                let mut rest = buf;
                advance(&mut rest, buf.len());
                self.0 = rest;
                Some(Err(e))
            },
        }
    }

    /// All that iterating from here yields, in order.
    pub fn collect(self) -> (r: Vec<Result<TagRef<'a>, DecodeError>>)
        ensures
            r@.len() == tag_run(self@).len(),
            forall|i: int| 0 <= i < r@.len() ==> view_result(#[trigger] r@[i]) == tag_run(self@)[i],
    {
        let mut it = self;
        let mut out: Vec<Result<TagRef<'a>, DecodeError>> = Vec::new();
        loop
            invariant
                tag_run(self@).len() == out@.len() + tag_run(it@).len(),
                forall|i: int|
                    0 <= i < out@.len() ==> view_result(#[trigger] out@[i]) == tag_run(self@)[i],
                forall|i: int|
                    0 <= i < tag_run(it@).len() ==> #[trigger] tag_run(it@)[i] == tag_run(self@)[out@.len()
                        + i],
            ensures
                out@.len() == tag_run(self@).len(),
            decreases it@.len(),
        {
            let ghost before = it@;
            let ghost done = out@.len();
            match it.next() {
                Some(item) => {
                    proof {
                        assert(tag_run(before)[0] == view_result(item));
                        assert forall|i: int| 0 <= i < tag_run(it@).len() implies #[trigger] tag_run(
                            it@,
                        )[i] == tag_run(self@)[done + 1 + i] by {
                            assert(tag_run(it@)[i] == tag_run(before)[i + 1]);
                        }
                    }
                    out.push(item);
                },
                None => {
                    break ;
                },
            }
        }
        out
    }
}

} // verus!
