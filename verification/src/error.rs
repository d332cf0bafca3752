//! Decode failures.

use vstd::prelude::*;

verus! {

/// The structure or field that a decoder was reading when it gave up.
#[derive(Debug, Clone, Copy, PartialEq, Eq, Structural)]
pub enum Field {
    Packet,
    CnPath,
    Tag,
    Register,
    MediaInfo,
    CodecList,
    CodecDesc,
    CodecMapStr,
    RequestChannel,
    AsCallId,
    AgoraInfo,
    RequestChannelPart2,
    RequestChannelAck,
    OpenRtpConnect,
    OpenRtpConnectAck,
    RtpInfo,
    RtpInfoAttribute,
    RtpInfoPart2,
    CloseRtpConnect,
    CloseRtpConnectAck,
    ResFromTag,
    Play,
    PlayAck,
    Filename,
    Cancel,
}

/// Why a buffer could not be decoded.
#[derive(Debug, Clone, Copy, PartialEq, Eq, Structural)]
pub enum DecodeError {
    /// The buffer holds `have` bytes where `field` needs at least `need`.
    TooShort { field: Field, need: usize, have: usize },
    /// A length field declares more bytes than the `available` ones that follow it.
    LengthOverrun { field: Field, declared: usize, available: usize },
    /// A string has no zero byte to end it.
    MissingTerminator { field: Field },
    /// A mandatory tag carries the code `found` where `expected` is required.
    UnexpectedTag { expected: u8, found: u8 },
    /// The bytes are not UTF-8.
    InvalidUtf8 { field: Field },
    /// A run holds `tags` tags where its count byte says `count`.
    TagCountMismatch { count: u8, tags: usize },
}

impl DecodeError {
    /// The failure is one of framing: a buffer too short for what it must
    /// hold, or a length field that reaches beyond the buffer.
    pub open spec fn is_framing(self) -> bool {
        self is TooShort || self is LengthOverrun
    }
}

/// A decoder's result with the decoded value replaced by its view.
pub open spec fn view_result<T: View>(r: Result<T, DecodeError>) -> Result<T::V, DecodeError> {
    match r {
        Ok(v) => Ok(v@),
        Err(e) => Err(e),
    }
}

/// The result of a decoder that also says how many bytes it consumed, with
/// the count as a number and the decoded value replaced by its view.
pub open spec fn view_sized<T: View>(r: Result<(usize, T), DecodeError>) -> Result<
    (int, T::V),
    DecodeError,
> {
    match r {
        Ok((n, v)) => Ok((n as int, v@)),
        Err(e) => Err(e),
    }
}

/// As `view_sized`, for a decoded value whose model is its deep view.
pub open spec fn deep_sized<T: DeepView>(r: Result<(usize, T), DecodeError>) -> Result<
    (int, T::V),
    DecodeError,
> {
    match r {
        Ok((n, v)) => Ok((n as int, v.deep_view())),
        Err(e) => Err(e),
    }
}

} // verus!
