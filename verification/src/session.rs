//! The registration handshake, as a state machine.
//!
//! The session owner sends and receives datagrams; this module decides. One
//! call of `handshake_step` takes the state and what just happened, and says
//! the next state and what to do next. The exchange is:
//!
//! 1. `Init`: send a `CNISUP` packet without payload and wait.
//! 2. `AwaitCnisupAck`: the datagram must be a packet with code
//!    `CNISUP_ACK`. Wait again.
//! 3. `AwaitRegister`: the datagram must be a packet with code `REGISTER`
//!    whose payload decodes. Answer with a `REGISTER_ACK` packet that carries
//!    one zero byte.
//! 4. `Established`: every datagram must be a packet; it is handed on.
//!
//! Whatever does not fit ends the session: there is no silent continuation
//! and no retry.
//!
//! Beside the handshake stands the task that owns a socket on behalf of
//! others. It serves one thing at a time, a datagram or a request, and
//! `task_step` says what each one leads to.

use crate::codes::MCodeType;
use crate::error::DecodeError;
use crate::media::{register_parse, RegisterRef};
use crate::packet::{
    packet_code, packet_parse, packet_payload, Header, PacketRef, HEADER_LENGTH,
};
use vstd::prelude::*;

verus! {

/// How many state-machine ids each node owns.
pub const FSM_IDS_PER_NODE: u32 = 1_000_000;

/// Where the handshake stands.
#[derive(Debug, Clone, Copy, PartialEq, Eq, Structural)]
pub enum State {
    /// Nothing was sent yet.
    Init,
    /// `CNISUP` was sent; its acknowledgement is awaited.
    AwaitCnisupAck,
    /// The peer's `REGISTER` is awaited.
    AwaitRegister,
    /// The handshake is done; messages are handed on as they come.
    Established,
    /// The session is over.
    Failed,
}

/// Why a session ended.
#[derive(Debug, Clone, Copy, PartialEq, Eq, Structural)]
pub enum SessionError {
    /// A datagram or a payload did not decode.
    Decode(DecodeError),
    /// A packet carries the code `found` where `expected` is due.
    UnexpectedCode { expected: MCodeType, found: u16 },
    /// Something happened that the state does not await: a datagram before
    /// the start, a second start, or anything after the end.
    OutOfTurn,
}

/// What happened: as the state machine sees it.
pub enum EventView {
    Start,
    Datagram(Seq<u8>),
}

/// What to do next: as the state machine says it.
pub enum ActionView {
    Send(Seq<u8>),
    Receive,
    Dispatch,
    Fail(SessionError),
}

/// What happened.
#[derive(Debug, Clone, Copy)]
pub enum Event<'a> {
    /// The session owner is ready to begin.
    Start,
    /// A datagram arrived.
    Datagram(&'a [u8]),
}

impl<'a> View for Event<'a> {
    type V = EventView;

    open spec fn view(&self) -> EventView {
        match *self {
            Event::Start => EventView::Start,
            Event::Datagram(data) => EventView::Datagram(data@),
        }
    }
}

/// What the session owner is to do next.
#[derive(Debug)]
pub enum Action {
    /// Send these bytes to the peer, then wait for the next datagram.
    Send(Vec<u8>),
    /// Wait for the next datagram.
    Receive,
    /// Hand the datagram just received to whoever handles messages, then
    /// wait for the next one.
    Dispatch,
    /// End the session with this error.
    Fail(SessionError),
}

impl View for Action {
    type V = ActionView;

    open spec fn view(&self) -> ActionView {
        match *self {
            Action::Send(bytes) => ActionView::Send(bytes@),
            Action::Receive => ActionView::Receive,
            Action::Dispatch => ActionView::Dispatch,
            Action::Fail(e) => ActionView::Fail(e),
        }
    }
}

/// The state-machine id of the node `cn_id`, where it fits in 32 bits.
pub open spec fn fsm_id_spec(cn_id: u32) -> Option<u32> {
    if cn_id * FSM_IDS_PER_NODE <= u32::MAX {
        Some((cn_id * FSM_IDS_PER_NODE) as u32)
    } else {
        None
    }
}

/// The state-machine id of the node `cn_id`: a million times its number.
/// There is none for a number so large that the product leaves 32 bits.
pub fn fsm_id_for(cn_id: u32) -> (r: Option<u32>)
    ensures
        r == fsm_id_spec(cn_id),
{
    cn_id.checked_mul(FSM_IDS_PER_NODE)
}

/// The header of a handshake packet.
pub open spec fn handshake_header(code: MCodeType, fsm_id: u32) -> Header {
    Header { code: code.spec_code(), fsm_id, key: 0, sn: 0 }
}

/// The opening packet: `CNISUP`, without payload.
pub open spec fn cnisup_bytes(fsm_id: u32) -> Seq<u8> {
    handshake_header(MCodeType::CNISUP, fsm_id).encode(Seq::empty())
}

/// The closing packet of the handshake: `REGISTER_ACK`, with one zero byte.
pub open spec fn register_ack_bytes(fsm_id: u32) -> Seq<u8> {
    handshake_header(MCodeType::REGISTER_ACK, fsm_id).encode(seq![0u8])
}

/// The session ends with `e`.
pub open spec fn failed(e: SessionError) -> (State, ActionView) {
    (State::Failed, ActionView::Fail(e))
}

/// What a datagram that must carry the code `expected` leads to, where it
/// does not: the failure to decode as a packet, or the other code.
pub open spec fn packet_refusal(datagram: Seq<u8>, expected: MCodeType) -> Option<SessionError> {
    match packet_parse(datagram) {
        Err(e) => Some(SessionError::Decode(e)),
        Ok(_) => if packet_code(datagram) != expected.spec_code() {
            Some(
                SessionError::UnexpectedCode { expected, found: packet_code(datagram) as u16 },
            )
        } else {
            None
        },
    }
}

/// The next state and the next action, from the state and what happened.
pub open spec fn handshake_step_spec(state: State, fsm_id: u32, event: EventView) -> (
    State,
    ActionView,
) {
    match (state, event) {
        (State::Init, EventView::Start) => (
            State::AwaitCnisupAck,
            ActionView::Send(cnisup_bytes(fsm_id)),
        ),
        (State::AwaitCnisupAck, EventView::Datagram(d)) => match packet_refusal(
            d,
            MCodeType::CNISUP_ACK,
        ) {
            Some(e) => failed(e),
            None => (State::AwaitRegister, ActionView::Receive),
        },
        (State::AwaitRegister, EventView::Datagram(d)) => match packet_refusal(
            d,
            MCodeType::REGISTER,
        ) {
            Some(e) => failed(e),
            None => match register_parse(packet_payload(d)) {
                Err(e) => failed(SessionError::Decode(e)),
                Ok(_) => (State::Established, ActionView::Send(register_ack_bytes(fsm_id))),
            },
        },
        (State::Established, EventView::Datagram(d)) => match packet_parse(d) {
            Err(e) => failed(SessionError::Decode(e)),
            Ok(_) => (State::Established, ActionView::Dispatch),
        },
        _ => failed(SessionError::OutOfTurn),
    }
}

/// How far a state is into the handshake.
pub open spec fn progress(state: State) -> int {
    match state {
        State::Init => 0,
        State::AwaitCnisupAck => 1,
        State::AwaitRegister => 2,
        State::Established => 3,
        State::Failed => 4,
    }
}

/// A session moves forward one state at a time or ends; it never goes back,
/// and an ended session stays ended. It ends exactly where the action is to
/// fail.
pub proof fn lemma_handshake_moves_forward(state: State, fsm_id: u32, event: EventView)
    ensures
        ({
            let (next, action) = handshake_step_spec(state, fsm_id, event);
            &&& next == State::Failed <==> action is Fail
            &&& next != State::Failed ==> progress(state) <= progress(next) <= progress(state) + 1
            &&& state == State::Failed ==> next == State::Failed
        }),
{
}

/// A datagram that is no packet ends the session, whatever the state.
pub proof fn lemma_bad_datagram_ends_session(state: State, fsm_id: u32, datagram: Seq<u8>)
    requires
        packet_parse(datagram) is Err,
    ensures
        handshake_step_spec(state, fsm_id, EventView::Datagram(datagram)).0 == State::Failed,
{
}

/// A session becomes established only on a `REGISTER` packet whose payload
/// decodes, received while that packet was awaited, and it answers with the
/// acknowledgement.
pub proof fn lemma_established_after_register(state: State, fsm_id: u32, event: EventView)
    requires
        state != State::Established,
        handshake_step_spec(state, fsm_id, event).0 == State::Established,
    ensures
        state == State::AwaitRegister,
        event matches EventView::Datagram(d) && packet_parse(d) is Ok && packet_code(d)
            == MCodeType::REGISTER.spec_code() && register_parse(packet_payload(d)) is Ok,
        handshake_step_spec(state, fsm_id, event).1 == ActionView::Send(register_ack_bytes(fsm_id)),
{
}

/// What the task that owns the socket is asked or told.
#[derive(Debug, Clone, Copy, PartialEq, Eq, Structural)]
pub enum TaskEvent {
    /// A caller asks whether the node is registered.
    Register,
    /// A datagram of `len` bytes arrived.
    Received { len: usize },
    /// Receiving failed.
    ReceiveFailed,
}

/// What the task that owns the socket does about it.
#[derive(Debug, Clone, Copy, PartialEq, Eq, Structural)]
pub enum TaskAction {
    /// Answer the caller that all is well, then go on.
    ReplyOk,
    /// Go on with the next datagram or request.
    Continue,
}

/// What the socket task does about one event. A request is answered before
/// anything else is served; a datagram, and a failure to receive one, leave
/// the task running.
pub open spec fn task_step_spec(event: TaskEvent) -> TaskAction {
    match event {
        TaskEvent::Register => TaskAction::ReplyOk,
        TaskEvent::Received { .. } => TaskAction::Continue,
        TaskEvent::ReceiveFailed => TaskAction::Continue,
    }
}

/// One step of the socket task.
pub fn task_step(event: TaskEvent) -> (r: TaskAction)
    ensures
        r == task_step_spec(event),
{
    match event {
        TaskEvent::Register => TaskAction::ReplyOk,
        TaskEvent::Received { .. } => TaskAction::Continue,
        TaskEvent::ReceiveFailed => TaskAction::Continue,
    }
}

/// Reads `datagram` as a packet that must carry the code `expected`.
fn expect_packet<'a>(datagram: &'a [u8], expected: MCodeType) -> (r: Result<
    PacketRef<'a>,
    SessionError,
>)
    ensures
        match packet_refusal(datagram@, expected) {
            Some(e) => r == Err::<PacketRef<'a>, SessionError>(e),
            None => r matches Ok(p) && p@ == datagram@,
        },
{
    let packet = match PacketRef::parse_from(datagram) {
        Ok(p) => p,
        Err(e) => {
            return Err(SessionError::Decode(e));
        },
    };
    let found = packet.code();
    if found != expected.code() {
        return Err(SessionError::UnexpectedCode { expected, found });
    }
    Ok(packet)
}

/// The bytes of a handshake packet with the given code and payload.
fn handshake_packet(code: MCodeType, fsm_id: u32, payload: &[u8]) -> (r: Vec<u8>)
    requires
        payload@.len() <= 1,
    ensures
        r@ == handshake_header(code, fsm_id).encode(payload@),
{
    let header = Header { code: code.code(), fsm_id, key: 0, sn: 0 };
    let mut buf: Vec<u8> = Vec::with_capacity(HEADER_LENGTH + payload.len());
    header.write_to2(&mut buf, payload);
    buf
}

/// One step of the handshake: from the state and what happened to the next
/// state and what to do next.
pub fn handshake_step(state: State, fsm_id: u32, event: Event<'_>) -> (r: (State, Action))
    ensures
        (r.0, r.1@) == handshake_step_spec(state, fsm_id, event@),
{
    match (state, event) {
        (State::Init, Event::Start) => {
            let empty: Vec<u8> = Vec::new();
            let bytes = handshake_packet(MCodeType::CNISUP, fsm_id, empty.as_slice());
            (State::AwaitCnisupAck, Action::Send(bytes))
        },
        (State::AwaitCnisupAck, Event::Datagram(d)) => {
            match expect_packet(d, MCodeType::CNISUP_ACK) {
                Err(e) => (State::Failed, Action::Fail(e)),
                Ok(_) => (State::AwaitRegister, Action::Receive),
            }
        },
        (State::AwaitRegister, Event::Datagram(d)) => {
            let packet = match expect_packet(d, MCodeType::REGISTER) {
                Err(e) => {
                    return (State::Failed, Action::Fail(e));
                },
                Ok(p) => p,
            };
            match RegisterRef::parse_from(packet.payload()) {
                Err(e) => (State::Failed, Action::Fail(SessionError::Decode(e))),
                Ok(_) => {
                    let mut zero: Vec<u8> = Vec::new();
                    zero.push(0u8);
                    let bytes = handshake_packet(MCodeType::REGISTER_ACK, fsm_id, zero.as_slice());
                    (State::Established, Action::Send(bytes))
                },
            }
        },
        (State::Established, Event::Datagram(d)) => {
            match PacketRef::parse_from(d) {
                Err(e) => (State::Failed, Action::Fail(SessionError::Decode(e))),
                Ok(_) => (State::Established, Action::Dispatch),
            }
        },
        _ => (State::Failed, Action::Fail(SessionError::OutOfTurn)),
    }
}

} // verus!
