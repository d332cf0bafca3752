//! Codec and session rules of a control node that talks to a media server
//! over datagrams.
//!
//! * [`wire`]: big-endian integers and zero-terminated strings.
//! * [`tag`], [`strs`]: tagged sub-structures and strings, alone and in runs.
//! * [`packet`]: the envelope of twelve header bytes around every message.
//! * [`media`], [`channel`], [`rtp`], [`play`]: the message payloads.
//! * [`message`]: choosing the decoder by message code or tag code.
//! * [`codes`]: the code sets, each open to numbers it does not know.
//! * [`session`]: the registration handshake as a state machine.
//! * [`hexdump`]: reading a hex dump of a packet back into bytes.
//!
//! Every decoder works in place on a borrowed byte slice and copies no
//! payload. Each one is specified by a function on `Seq<u8>` that says which
//! inputs decode and to what; no decoder panics, whatever the input.

pub mod channel;
pub mod codes;
pub mod error;
pub mod hexdump;
pub mod media;
pub mod message;
pub mod packet;
pub mod play;
pub mod rtp;
pub mod session;
pub mod strs;
pub mod tag;
pub mod wire;
