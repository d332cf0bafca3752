//! The packet envelope: a fixed header of twelve bytes around every message.
//!
//! On the wire a packet is `length:u16`, `code:u16`, `fsm_id:u32`, `key:i16`,
//! `sn:u16`, all big-endian, then `length - 10` bytes of payload. `length`
//! counts everything after the length field itself. Bytes beyond
//! `2 + length` are not part of the packet body; they carry the sender's
//! path and are handed out separately.

use crate::error::{view_result, DecodeError, Field};
use crate::wire::{
    advance, be_i16, be_u16, be_u32, get_i16, get_u16, get_u32, i16_be, lemma_i16_round_trip,
    lemma_u16_round_trip, lemma_u32_round_trip, put, put_i16, put_u16, put_u32, str_from_utf8,
    u16_be, u32_be,
};
use vstd::prelude::*;
use vstd::string::StringSliceAdditionalSpecFns;
use vstd::utf8::valid_utf8;

verus! {

/// Bytes in the fixed header, the length field included.
pub const HEADER_LENGTH: usize = 12;

/// The length field of a packet: the count of bytes that follow it.
pub open spec fn packet_length(s: Seq<u8>) -> int {
    be_u16(s)
}

/// The message code of a packet.
pub open spec fn packet_code(s: Seq<u8>) -> int {
    be_u16(s.skip(2))
}

/// The state-machine id of a packet.
pub open spec fn packet_fsm_id(s: Seq<u8>) -> int {
    be_u32(s.skip(4))
}

/// The signed key of a packet.
pub open spec fn packet_key(s: Seq<u8>) -> int {
    be_i16(s.skip(8))
}

/// The sequence number of a packet.
pub open spec fn packet_sn(s: Seq<u8>) -> int {
    be_u16(s.skip(10))
}

/// The payload of a packet: the bytes from 12 up to `2 + length`. A declared
/// length below 10 leaves no room for a payload, and the range is empty.
pub open spec fn packet_payload(s: Seq<u8>) -> Seq<u8> {
    if packet_length(s) >= 10 {
        s.subrange(HEADER_LENGTH as int, 2 + packet_length(s))
    } else {
        Seq::empty()
    }
}

/// The bytes that follow the packet body.
pub open spec fn packet_path(s: Seq<u8>) -> Seq<u8> {
    s.skip(2 + packet_length(s))
}

/// A buffer decodes as a packet when it holds the twelve header bytes and
/// its length field does not reach beyond the buffer.
pub open spec fn packet_parse(s: Seq<u8>) -> Result<Seq<u8>, DecodeError> {
    if s.len() < HEADER_LENGTH {
        Err(DecodeError::TooShort { field: Field::Packet, need: HEADER_LENGTH, have: s.len() as usize })
    } else if packet_length(s) > s.len() - 2 {
        Err(
            DecodeError::LengthOverrun {
                field: Field::Packet,
                declared: packet_length(s) as usize,
                available: (s.len() - 2) as usize,
            },
        )
    } else {
        Ok(s)
    }
}

/// A packet read in place. Its view is the whole datagram it was parsed from.
#[derive(Debug, Clone, Copy)]
pub struct PacketRef<'a> {
    data: &'a [u8],
}

impl<'a> View for PacketRef<'a> {
    type V = Seq<u8>;

    closed spec fn view(&self) -> Seq<u8> {
        self.data@
    }
}

impl<'a> PacketRef<'a> {
    #[verifier::type_invariant]
    spec fn well_formed(self) -> bool {
        packet_parse(self.data@) is Ok
    }

    /// Checks the framing of `data` and, where it holds, hands out a view of
    /// the packet.
    pub fn parse_from(data: &'a [u8]) -> (r: Result<Self, DecodeError>)
        ensures
            view_result(r) == packet_parse(data@),
            data@.len() < HEADER_LENGTH ==> (r matches Err(e) && e.is_framing()),
            data@.len() >= HEADER_LENGTH && packet_length(data@) > data@.len() - 2 ==> (r matches Err(
                e,
            ) && e.is_framing()),
    {
        if data.len() < HEADER_LENGTH {
            return Err(
                DecodeError::TooShort { field: Field::Packet, need: HEADER_LENGTH, have: data.len() },
            );
        }
        let mut buf = data;
        let length = get_u16(&mut buf) as usize;
        if length > buf.len() {
            return Err(
                DecodeError::LengthOverrun {
                    field: Field::Packet,
                    declared: length,
                    available: buf.len(),
                },
            );
        }
        Ok(Self { data })
    }

    /// The declared length. It never reaches beyond the datagram.
    pub fn length(&self) -> (r: usize)
        ensures
            r == packet_length(self@),
            packet_parse(self@) is Ok,
    {
        proof {
            use_type_invariant(self);
        }
        let mut buf = self.data;
        get_u16(&mut buf) as usize
    }

    pub fn code(&self) -> (r: u16)
        ensures
            r == packet_code(self@),
    {
        proof {
            use_type_invariant(self);
        }
        let mut buf = self.data;
        advance(&mut buf, 2);
        get_u16(&mut buf)
    }

    pub fn fsm_id(&self) -> (r: u32)
        ensures
            r == packet_fsm_id(self@),
    {
        proof {
            use_type_invariant(self);
        }
        let mut buf = self.data;
        advance(&mut buf, 4);
        get_u32(&mut buf)
    }

    pub fn key(&self) -> (r: i16)
        ensures
            r == packet_key(self@),
    {
        proof {
            use_type_invariant(self);
        }
        let mut buf = self.data;
        advance(&mut buf, 8);
        get_i16(&mut buf)
    }

    pub fn sn(&self) -> (r: u16)
        ensures
            r == packet_sn(self@),
    {
        proof {
            use_type_invariant(self);
        }
        let mut buf = self.data;
        advance(&mut buf, 10);
        get_u16(&mut buf)
    }

    /// The message payload, borrowed from the datagram.
    pub fn payload(&self) -> (r: &'a [u8])
        ensures
            r@ == packet_payload(self@),
    {
        let len = self.length();
        if len >= 10 {
            &self.data[HEADER_LENGTH..len + 2]
        } else {
            &self.data[0..0]
        }
    }

    /// The bytes after the packet body, borrowed from the datagram.
    pub fn cn_path_data(&self) -> (r: &'a [u8])
        ensures
            r@ == packet_path(self@),
    {
        let len = self.length();
        let mut buf = self.data;
        advance(&mut buf, len + 2);
        buf
    }

    /// The bytes after the packet body as text, where they are UTF-8.
    pub fn cn_path_utf8(&self) -> (r: Result<&'a str, DecodeError>)
        ensures
            r is Ok <==> valid_utf8(packet_path(self@)),
            r matches Ok(s) ==> s.spec_bytes() == packet_path(self@),
            r matches Err(e) ==> e == (DecodeError::InvalidUtf8 { field: Field::CnPath }),
    {
        match str_from_utf8(self.cn_path_data()) {
            Some(s) => Ok(s),
            None => Err(DecodeError::InvalidUtf8 { field: Field::CnPath }),
        }
    }

    /// The header fields, copied out.
    pub fn to_header(&self) -> (r: Header)
        ensures
            r.code == packet_code(self@),
            r.fsm_id == packet_fsm_id(self@),
            r.key == packet_key(self@),
            r.sn == packet_sn(self@),
    {
        Header { code: self.code(), fsm_id: self.fsm_id(), key: self.key(), sn: self.sn() }
    }
}

/// The header fields of an outgoing packet. The length is not among them: it
/// is computed from the payload when the packet is written.
#[derive(Debug, Clone, Copy, PartialEq, Eq, Structural)]
pub struct Header {
    pub code: u16,
    pub fsm_id: u32,
    pub key: i16,
    pub sn: u16,
}

impl Default for Header {
    fn default() -> (r: Self)
        ensures
            r == (Header { code: 0, fsm_id: 0, key: 0, sn: 0 }),
    {
        Header { code: 0, fsm_id: 0, key: 0, sn: 0 }
    }
}

impl Header {
    /// The bytes of a packet with this header around `payload`.
    pub open spec fn encode(self, payload: Seq<u8>) -> Seq<u8>
        recommends
            payload.len() + 10 <= u16::MAX,
    {
        u16_be((10 + payload.len()) as u16) + u16_be(self.code) + u32_be(self.fsm_id) + i16_be(
            self.key,
        ) + u16_be(self.sn) + payload
    }

    /// Appends a packet without payload to `buf` and returns its size.
    pub fn write_to(&self, buf: &mut Vec<u8>) -> (len: usize)
        requires
            old(buf)@.len() + HEADER_LENGTH <= isize::MAX,
        ensures
            final(buf)@ == old(buf)@ + self.encode(Seq::empty()),
            len == HEADER_LENGTH,
    {
        let empty: Vec<u8> = Vec::new();
        self.write_to2(buf, empty.as_slice())
    }

    /// Appends a packet around `payload` to `buf` and returns its size,
    /// where the payload fits a packet: the length field is two bytes wide,
    /// so a payload may hold at most 65525 bytes. Where it does not fit, or
    /// the vector would outgrow `isize::MAX`, nothing is written.
    pub fn try_write_to2(&self, buf: &mut Vec<u8>, payload: &[u8]) -> (r: Option<usize>)
        ensures
            r is Some <==> payload@.len() + 10 <= u16::MAX && old(buf)@.len() + HEADER_LENGTH
                + payload@.len() <= isize::MAX,
            r matches Some(len) ==> len == HEADER_LENGTH + payload@.len() && final(buf)@ == old(
                buf,
            )@ + self.encode(payload@),
            r is None ==> final(buf)@ == old(buf)@,
    {
        let most: usize = isize::MAX as usize;
        if payload.len() > 0xffff - 10 || buf.len() > most - HEADER_LENGTH - payload.len() {
            None
        } else {
            Some(self.write_to2(buf, payload))
        }
    }

    /// Appends a packet around `payload` to `buf` and returns its size. The
    /// length field is two bytes wide, so the payload may hold at most
    /// 65525 bytes.
    pub fn write_to2(&self, buf: &mut Vec<u8>, payload: &[u8]) -> (len: usize)
        requires
            payload@.len() + 10 <= u16::MAX,
            old(buf)@.len() + HEADER_LENGTH + payload@.len() <= isize::MAX,
        ensures
            final(buf)@ == old(buf)@ + self.encode(payload@),
            len == HEADER_LENGTH + payload@.len(),
    {
        let len = HEADER_LENGTH + payload.len();
        put_u16(buf, (len - 2) as u16);
        put_u16(buf, self.code);
        put_u32(buf, self.fsm_id);
        put_i16(buf, self.key);
        put_u16(buf, self.sn);
        put(buf, payload);
        len
    }
}

/// A packet written from a header and a payload reads back as a packet with
/// the same header fields and the same payload, and nothing after it.
pub proof fn lemma_header_round_trip(h: Header, payload: Seq<u8>)
    requires
        payload.len() + 10 <= u16::MAX,
    ensures
        packet_parse(h.encode(payload)) == Ok::<Seq<u8>, DecodeError>(h.encode(payload)),
        packet_length(h.encode(payload)) == 10 + payload.len(),
        packet_code(h.encode(payload)) == h.code,
        packet_fsm_id(h.encode(payload)) == h.fsm_id,
        packet_key(h.encode(payload)) == h.key,
        packet_sn(h.encode(payload)) == h.sn,
        packet_payload(h.encode(payload)) == payload,
        packet_path(h.encode(payload)) == Seq::<u8>::empty(),
{
    lemma_u16_round_trip((10 + payload.len()) as u16);
    lemma_u16_round_trip(h.code);
    lemma_u32_round_trip(h.fsm_id);
    lemma_i16_round_trip(h.key);
    lemma_u16_round_trip(h.sn);
}

} // verus!
