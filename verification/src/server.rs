//! The launcher's protocol state machine: bootstrap handshake and the
//! steady-state dispatch loop.
//!
//! Bootstrap runs once: spawn the child with the rendezvous address, take
//! its one `Register` message, open the reply channel it names, and
//! acknowledge.  Control then passes to the dispatch loop, which consumes
//! one envelope at a time for the lifetime of the launcher.
//!
//! All channel I/O and process spawning happen outside this crate; the
//! platform layer reports each observation as a [`ServerEvent`], applies
//! [`step`], and performs the [`ServerAction`] it is handed back.  Every
//! decision between those observations is verified here.  Handshake
//! failures fault the machine with a typed error instead of aborting the
//! process, and a closed control channel retires the loop instead of
//! retrying forever.

use vstd::prelude::*;

use vstd::utf8::is_ascii_chars;
use vstd::utf8::is_ascii_chars_encode_utf8;

use crate::codec::decode_envelope;
use crate::codec::decode_envelope_spec;
use crate::codec::decode_register;
use crate::codec::decode_register_spec;
use crate::codec::decode_spawn;
use crate::codec::encode_envelope;
use crate::codec::encode_envelope_spec;
use crate::codec::Envelope;
use crate::codec::Spawn;
use crate::error::Error;

verus! {

/// The bytes of the acknowledgement envelope: tag `ok`, empty payload.
pub open spec fn ok_envelope_bytes() -> Seq<u8> {
    encode_envelope_spec("ok"@, Seq::empty())
}

/// Builds the acknowledgement envelope sent after a processed message.
pub fn ok_envelope() -> (r: Vec<u8>)
    ensures
        r@ == ok_envelope_bytes(),
{
    let e = Envelope { message_id: String::from_str("ok"), payload: Vec::new() };
    proof {
        reveal_strlit("ok");
        assert(is_ascii_chars(e.message_id@));
        is_ascii_chars_encode_utf8(e.message_id@);
    }
    encode_envelope(&e)
}

/// What dispatching one envelope decided (mathematical form).
pub enum DispatchView {
    /// A recognized workload-start request: its opaque body, and the bytes
    /// of the acknowledgement owed in reply.
    SpawnRequested(Seq<u8>, Seq<u8>),
    /// An unrecognized tag: skipped, by design.
    Ignored(Seq<char>),
    /// The envelope itself did not decode.
    Malformed,
}

/// What dispatching one envelope decides: a recognized `Spawn` is answered
/// with the acknowledgement; an unrecognized tag is skipped; a malformed
/// envelope is dropped without acknowledgement.
pub open spec fn dispatch_spec(bytes: Seq<u8>) -> DispatchView {
    match decode_envelope_spec(bytes) {
        Option::Some((id, payload)) => if id == "Spawn"@ {
            DispatchView::SpawnRequested(payload, ok_envelope_bytes())
        } else {
            DispatchView::Ignored(id)
        },
        Option::None => DispatchView::Malformed,
    }
}

/// What dispatching one envelope decided.
#[derive(Clone, Debug, PartialEq, Eq)]
pub enum DispatchOutcome {
    /// A recognized workload-start request, and the reply owed for it.
    SpawnRequested(Spawn, Vec<u8>),
    /// An unrecognized tag: skipped, by design.
    Ignored(String),
    /// The envelope itself did not decode.
    Malformed,
}

impl View for DispatchOutcome {
    type V = DispatchView;

    open spec fn view(&self) -> DispatchView {
        match self {
            DispatchOutcome::SpawnRequested(req, reply) => DispatchView::SpawnRequested(
                req.body@,
                reply@,
            ),
            DispatchOutcome::Ignored(id) => DispatchView::Ignored(id@),
            DispatchOutcome::Malformed => DispatchView::Malformed,
        }
    }
}

/// Routes one inbound envelope by its tag.  A `Spawn` request is decoded
/// and owed an acknowledgement; an unrecognized tag is skipped so that
/// future message types do not break older launchers; a malformed envelope
/// is dropped and never acknowledged.
pub fn dispatch(bytes: &[u8]) -> (o: DispatchOutcome)
    ensures
        o@ == dispatch_spec(bytes@),
{
    match decode_envelope(bytes) {
        Result::Ok(env) => {
            if env.message_id == String::from_str("Spawn") {
                let req = decode_spawn(env.payload.as_slice());
                DispatchOutcome::SpawnRequested(req, ok_envelope())
            } else {
                DispatchOutcome::Ignored(env.message_id)
            }
        },
        Result::Err(_) => DispatchOutcome::Malformed,
    }
}

/// The launcher's protocol state (mathematical form).
pub enum StateView {
    Idle,
    AwaitingRegistration,
    Connecting(Seq<char>),
    Connected,
    Running,
    Retired,
    Faulted(Error),
}

/// The launcher's protocol state.  `Connecting` is the moment inside the
/// registration step after the child named its reply address and before
/// the outbound channel to it is open.
#[derive(Clone, Debug, PartialEq, Eq)]
pub enum ServerState {
    /// Nothing spawned yet.
    Idle,
    /// Child spawned; its one `Register` message is awaited.
    AwaitingRegistration,
    /// Registration accepted; opening the reply channel it named.
    Connecting(String),
    /// Reply channel open; the acknowledgement is being sent.
    Connected,
    /// Handshake complete; the dispatch loop owns the channel pair.
    Running,
    /// The control channel closed; the loop ended cleanly.
    Retired,
    /// A handshake or transport failure ended the attempt, typed.
    Faulted(Error),
}

impl View for ServerState {
    type V = StateView;

    open spec fn view(&self) -> StateView {
        match self {
            ServerState::Idle => StateView::Idle,
            ServerState::AwaitingRegistration => StateView::AwaitingRegistration,
            ServerState::Connecting(addr) => StateView::Connecting(addr@),
            ServerState::Connected => StateView::Connected,
            ServerState::Running => StateView::Running,
            ServerState::Retired => StateView::Retired,
            ServerState::Faulted(e) => StateView::Faulted(*e),
        }
    }
}

/// What the platform layer observed (mathematical form).
pub enum EventView {
    SpawnSucceeded,
    SpawnFailed,
    Received(Seq<u8>),
    ReceiveTimedOut,
    ReceiveFailed,
    ChannelClosed,
    ConnectSucceeded,
    ConnectFailed,
    SendSucceeded,
    SendFailed,
}

/// What the platform layer observed while performing the last action.
#[derive(Clone, Debug, PartialEq, Eq)]
pub enum ServerEvent {
    /// The child process was spawned.
    SpawnSucceeded,
    /// The child process could not be spawned.
    SpawnFailed,
    /// One envelope's bytes arrived.
    Received(Vec<u8>),
    /// The bounded receive elapsed without a message.
    ReceiveTimedOut,
    /// A receive failed on an open channel.
    ReceiveFailed,
    /// The inbound channel is closed.
    ChannelClosed,
    /// The outbound channel to the reply address is open.
    ConnectSucceeded,
    /// The reply address was unreachable.
    ConnectFailed,
    /// The last outbound message was sent.
    SendSucceeded,
    /// The last outbound message could not be sent.
    SendFailed,
}

impl View for ServerEvent {
    type V = EventView;

    open spec fn view(&self) -> EventView {
        match self {
            ServerEvent::SpawnSucceeded => EventView::SpawnSucceeded,
            ServerEvent::SpawnFailed => EventView::SpawnFailed,
            ServerEvent::Received(bytes) => EventView::Received(bytes@),
            ServerEvent::ReceiveTimedOut => EventView::ReceiveTimedOut,
            ServerEvent::ReceiveFailed => EventView::ReceiveFailed,
            ServerEvent::ChannelClosed => EventView::ChannelClosed,
            ServerEvent::ConnectSucceeded => EventView::ConnectSucceeded,
            ServerEvent::ConnectFailed => EventView::ConnectFailed,
            ServerEvent::SendSucceeded => EventView::SendSucceeded,
            ServerEvent::SendFailed => EventView::SendFailed,
        }
    }
}

/// What the platform layer must do next (mathematical form).
pub enum ActionView {
    SpawnChild,
    AwaitRegistration,
    ConnectTo(Seq<char>),
    SendMessage(Seq<u8>),
    AwaitEnvelope,
    Stop,
}

/// What the platform layer must do next.
#[derive(Clone, Debug, PartialEq, Eq)]
pub enum ServerAction {
    /// Spawn the supervised process, handing it the rendezvous address.
    SpawnChild,
    /// Block (with the configured timeout) for the registration message.
    AwaitRegistration,
    /// Open an outbound channel to this reply address.
    ConnectTo(String),
    /// Send these bytes on the outbound channel.
    SendMessage(Vec<u8>),
    /// Block for the next inbound envelope.
    AwaitEnvelope,
    /// The machine is terminal; release the channels.
    Stop,
}

impl View for ServerAction {
    type V = ActionView;

    open spec fn view(&self) -> ActionView {
        match self {
            ServerAction::SpawnChild => ActionView::SpawnChild,
            ServerAction::AwaitRegistration => ActionView::AwaitRegistration,
            ServerAction::ConnectTo(addr) => ActionView::ConnectTo(addr@),
            ServerAction::SendMessage(bytes) => ActionView::SendMessage(bytes@),
            ServerAction::AwaitEnvelope => ActionView::AwaitEnvelope,
            ServerAction::Stop => ActionView::Stop,
        }
    }
}

/// The standing obligation of a state: what the platform layer should be
/// doing while no decisive event has arrived.
pub open spec fn standing_action(s: StateView) -> ActionView {
    match s {
        StateView::Idle => ActionView::SpawnChild,
        StateView::AwaitingRegistration => ActionView::AwaitRegistration,
        StateView::Connecting(addr) => ActionView::ConnectTo(addr),
        StateView::Connected => ActionView::SendMessage(ok_envelope_bytes()),
        StateView::Running => ActionView::AwaitEnvelope,
        StateView::Retired => ActionView::Stop,
        StateView::Faulted(_) => ActionView::Stop,
    }
}

/// The full transition relation.  Handshake failures fault the machine
/// with the matching typed error; dispatch-loop failures scoped to one
/// envelope are recovered locally; a closed or failing main receive
/// retires the loop; an event that does not belong to the current state
/// changes nothing and repeats the standing obligation.
pub open spec fn step_spec(s: StateView, e: EventView) -> (StateView, ActionView) {
    match (s, e) {
        (StateView::Idle, EventView::SpawnSucceeded) => (
            StateView::AwaitingRegistration,
            ActionView::AwaitRegistration,
        ),
        (StateView::Idle, EventView::SpawnFailed) => (
            StateView::Faulted(Error::Connection),
            ActionView::Stop,
        ),
        (StateView::AwaitingRegistration, EventView::Received(bytes)) => match decode_envelope_spec(
            bytes,
        ) {
            Option::Some((id, payload)) => if id == "Register"@ {
                match decode_register_spec(payload) {
                    Option::Some(addr) => (StateView::Connecting(addr), ActionView::ConnectTo(addr)),
                    Option::None => (StateView::Faulted(Error::Serialization), ActionView::Stop),
                }
            } else {
                (StateView::Faulted(Error::Serialization), ActionView::Stop)
            },
            Option::None => (StateView::Faulted(Error::Serialization), ActionView::Stop),
        },
        (StateView::AwaitingRegistration, EventView::ReceiveTimedOut) => (
            StateView::Faulted(Error::Timeout),
            ActionView::Stop,
        ),
        (StateView::AwaitingRegistration, EventView::ReceiveFailed) => (
            StateView::Faulted(Error::Transport),
            ActionView::Stop,
        ),
        (StateView::AwaitingRegistration, EventView::ChannelClosed) => (
            StateView::Faulted(Error::Transport),
            ActionView::Stop,
        ),
        (StateView::Connecting(_), EventView::ConnectSucceeded) => (
            StateView::Connected,
            ActionView::SendMessage(ok_envelope_bytes()),
        ),
        (StateView::Connecting(_), EventView::ConnectFailed) => (
            StateView::Faulted(Error::Connection),
            ActionView::Stop,
        ),
        (StateView::Connected, EventView::SendSucceeded) => (
            StateView::Running,
            ActionView::AwaitEnvelope,
        ),
        (StateView::Connected, EventView::SendFailed) => (
            StateView::Faulted(Error::Transport),
            ActionView::Stop,
        ),
        (StateView::Running, EventView::Received(bytes)) => match dispatch_spec(bytes) {
            DispatchView::SpawnRequested(_, reply) => (
                StateView::Running,
                ActionView::SendMessage(reply),
            ),
            DispatchView::Ignored(_) => (StateView::Running, ActionView::AwaitEnvelope),
            DispatchView::Malformed => (StateView::Running, ActionView::AwaitEnvelope),
        },
        (StateView::Running, EventView::SendSucceeded) => (
            StateView::Running,
            ActionView::AwaitEnvelope,
        ),
        (StateView::Running, EventView::SendFailed) => (
            StateView::Faulted(Error::Transport),
            ActionView::Stop,
        ),
        (StateView::Running, EventView::ChannelClosed) => (StateView::Retired, ActionView::Stop),
        (StateView::Running, EventView::ReceiveFailed) => (StateView::Retired, ActionView::Stop),
        (_, _) => (s, standing_action(s)),
    }
}

/// Applies one observed event to the machine and hands back the next
/// action.  The pair returned is exactly what [`step_spec`] requires of
/// the views of the inputs.
pub fn step(state: ServerState, event: ServerEvent) -> (r: (ServerState, ServerAction))
    ensures
        (r.0@, r.1@) == step_spec(state@, event@),
{
    match (state, event) {
        (ServerState::Idle, ServerEvent::SpawnSucceeded) => (
            ServerState::AwaitingRegistration,
            ServerAction::AwaitRegistration,
        ),
        (ServerState::Idle, ServerEvent::SpawnFailed) => (
            ServerState::Faulted(Error::Connection),
            ServerAction::Stop,
        ),
        (ServerState::AwaitingRegistration, ServerEvent::Received(bytes)) => match decode_envelope(
            bytes.as_slice(),
        ) {
            Result::Ok(env) => {
                if env.message_id == String::from_str("Register") {
                    match decode_register(env.payload.as_slice()) {
                        Result::Ok(reg) => {
                            let addr = reg.reply_address;
                            let addr_for_action = addr.clone();
                            (
                                ServerState::Connecting(addr),
                                ServerAction::ConnectTo(addr_for_action),
                            )
                        },
                        Result::Err(_) => (
                            ServerState::Faulted(Error::Serialization),
                            ServerAction::Stop,
                        ),
                    }
                } else {
                    (ServerState::Faulted(Error::Serialization), ServerAction::Stop)
                }
            },
            Result::Err(_) => (ServerState::Faulted(Error::Serialization), ServerAction::Stop),
        },
        (ServerState::AwaitingRegistration, ServerEvent::ReceiveTimedOut) => (
            ServerState::Faulted(Error::Timeout),
            ServerAction::Stop,
        ),
        (ServerState::AwaitingRegistration, ServerEvent::ReceiveFailed) => (
            ServerState::Faulted(Error::Transport),
            ServerAction::Stop,
        ),
        (ServerState::AwaitingRegistration, ServerEvent::ChannelClosed) => (
            ServerState::Faulted(Error::Transport),
            ServerAction::Stop,
        ),
        (ServerState::Connecting(_), ServerEvent::ConnectSucceeded) => (
            ServerState::Connected,
            ServerAction::SendMessage(ok_envelope()),
        ),
        (ServerState::Connecting(_), ServerEvent::ConnectFailed) => (
            ServerState::Faulted(Error::Connection),
            ServerAction::Stop,
        ),
        (ServerState::Connected, ServerEvent::SendSucceeded) => (
            ServerState::Running,
            ServerAction::AwaitEnvelope,
        ),
        (ServerState::Connected, ServerEvent::SendFailed) => (
            ServerState::Faulted(Error::Transport),
            ServerAction::Stop,
        ),
        (ServerState::Running, ServerEvent::Received(bytes)) => match dispatch(bytes.as_slice()) {
            DispatchOutcome::SpawnRequested(_, reply) => (
                ServerState::Running,
                ServerAction::SendMessage(reply),
            ),
            DispatchOutcome::Ignored(_) => (ServerState::Running, ServerAction::AwaitEnvelope),
            DispatchOutcome::Malformed => (ServerState::Running, ServerAction::AwaitEnvelope),
        },
        (ServerState::Running, ServerEvent::SendSucceeded) => (
            ServerState::Running,
            ServerAction::AwaitEnvelope,
        ),
        (ServerState::Running, ServerEvent::SendFailed) => (
            ServerState::Faulted(Error::Transport),
            ServerAction::Stop,
        ),
        (ServerState::Running, ServerEvent::ChannelClosed) => (
            ServerState::Retired,
            ServerAction::Stop,
        ),
        (ServerState::Running, ServerEvent::ReceiveFailed) => (
            ServerState::Retired,
            ServerAction::Stop,
        ),
        (s, _) => {
            let a = standing_action_of(&s);
            (s, a)
        },
    }
}

/// The executable form of [`standing_action`].
fn standing_action_of(s: &ServerState) -> (a: ServerAction)
    ensures
        a@ == standing_action(s@),
{
    match s {
        ServerState::Idle => ServerAction::SpawnChild,
        ServerState::AwaitingRegistration => ServerAction::AwaitRegistration,
        ServerState::Connecting(addr) => ServerAction::ConnectTo(addr.clone()),
        ServerState::Connected => ServerAction::SendMessage(ok_envelope()),
        ServerState::Running => ServerAction::AwaitEnvelope,
        ServerState::Retired => ServerAction::Stop,
        ServerState::Faulted(_) => ServerAction::Stop,
    }
}

/// An envelope with an unrecognized tag leaves the loop in `Running` and
/// changes nothing it can observe: a later envelope is handled exactly as
/// it would have been without the unrecognized one, and a well-formed
/// workload-start request among them is still answered with the
/// acknowledgement.
pub proof fn lemma_unknown_tag_harmless(b1: Seq<u8>, b2: Seq<u8>)
    requires
        decode_envelope_spec(b1) is Some,
        decode_envelope_spec(b1).unwrap().0 != "Spawn"@,
    ensures
        step_spec(StateView::Running, EventView::Received(b1)) == (
            StateView::Running,
            ActionView::AwaitEnvelope,
        ),
        step_spec(
            step_spec(StateView::Running, EventView::Received(b1)).0,
            EventView::Received(b2),
        ) == step_spec(StateView::Running, EventView::Received(b2)),
        dispatch_spec(b2) is SpawnRequested ==> step_spec(
            step_spec(StateView::Running, EventView::Received(b1)).0,
            EventView::Received(b2),
        ).1 == ActionView::SendMessage(ok_envelope_bytes()),
{
}

} // verus!
