//! The session with the game server: the bootstrap that connects off the
//! frame loop, the pump that reads at most one frame per tick, and the relays
//! that write requests. The host performs the I/O and hands each outcome in;
//! the session says what to do next. Nothing here blocks or fails.
use vstd::prelude::*;
use crate::codec::{
    GenericIncomingRequest, decode_envelope, encode_join, encode_move, envelope_of_text, join_text, move_text,
};
use crate::dispatch::{DomainEvent, dispatch, publishes};
use crate::json::is_direction_text;

verus! {

/// The local player asks to join under a friendly name.
pub struct JoinRequestEvent(pub String);

/// The local player moved by a direction, each component given as the JSON
/// text serde_json writes for a float (`null` where it is not finite).
pub struct MoveRequestEvent(pub String, pub String);

/// Where the connection stands.
#[derive(Clone, Copy, Debug, PartialEq, Eq, Structural)]
pub enum ConnectionState {
    /// No handshake was asked for yet.
    NotStarted,
    /// A handshake runs in the background.
    InFlight,
    /// The connection is installed and non-blocking.
    Ready,
    /// The last handshake failed; no connection is installed.
    Failed,
}

/// What the host learned when it polled the background handshake.
#[derive(Clone, Copy, Debug, PartialEq, Eq, Structural)]
pub enum HandshakeOutcome {
    Pending,
    Succeeded,
    Failed,
}

/// What the bootstrap asks the host to do.
#[derive(Clone, Copy, Debug, PartialEq, Eq, Structural)]
pub enum BootstrapAction {
    /// Start the handshake in the background.
    SpawnHandshake,
    /// Install the connection that the handshake produced.
    InstallConnection,
    /// Log that the handshake failed.
    ReportFailure,
    /// Nothing to do.
    Ignore,
}

/// What one non-blocking read of the connection gave.
pub enum ReadOutcome {
    /// A text frame.
    Frame(String),
    /// A frame whose payload is not text.
    NotText,
    /// No data was available: not an error.
    WouldBlock,
    /// Any other I/O or protocol error, with its description.
    Failed(String),
}

/// What the pump asks the host to do after one read.
pub enum PumpAction {
    /// Publish the event of the frame, if it has one.
    Deliver(GenericIncomingRequest, Option<DomainEvent>),
    /// Nothing to do this tick.
    Idle,
    /// Log the error and keep the connection installed.
    LogError(String),
}

/// What one non-blocking write of the connection gave.
#[derive(Clone, Copy, Debug, PartialEq, Eq, Structural)]
pub enum WriteOutcome {
    Sent,
    /// The send buffer was full: not an error.
    WouldBlock,
    Failed,
}

/// What a relay does after a write.
#[derive(Clone, Copy, Debug, PartialEq, Eq, Structural)]
pub enum RelayAction {
    /// The request went out.
    Delivered,
    /// The request is dropped silently, not queued and not retried.
    Dropped,
    /// The request is dropped and the error is logged.
    LogError,
}

/// The bootstrap's step on a request to connect: a handshake is spawned only
/// where none runs and no connection is installed.
pub open spec fn setup_step(s: ConnectionState) -> (ConnectionState, BootstrapAction) {
    match s {
        ConnectionState::NotStarted | ConnectionState::Failed => (ConnectionState::InFlight, BootstrapAction::SpawnHandshake),
        _ => (s, BootstrapAction::Ignore),
    }
}

/// The bootstrap's step on a poll of the background handshake.
pub open spec fn handshake_step(s: ConnectionState, o: HandshakeOutcome) -> (ConnectionState, BootstrapAction) {
    match (s, o) {
        (ConnectionState::InFlight, HandshakeOutcome::Succeeded) => (ConnectionState::Ready, BootstrapAction::InstallConnection),
        (ConnectionState::InFlight, HandshakeOutcome::Failed) => (ConnectionState::Failed, BootstrapAction::ReportFailure),
        _ => (s, BootstrapAction::Ignore),
    }
}

/// The pump's answer to one read on a session in state `s`.
pub open spec fn pump_answers(s: ConnectionState, read: ReadOutcome, a: PumpAction) -> bool {
    if s != ConnectionState::Ready {
        a is Idle
    } else {
        match read {
            ReadOutcome::Frame(t) => match a {
                PumpAction::Deliver(env, e) => env == envelope_of_text(t@) && publishes(env, e),
                _ => false,
            },
            ReadOutcome::NotText => match a {
                PumpAction::Deliver(env, e) => env == crate::codec::sentinel() && e is None,
                _ => false,
            },
            ReadOutcome::WouldBlock => a is Idle,
            ReadOutcome::Failed(m) => a == PumpAction::LogError(m),
        }
    }
}

/// The relay's answer to one write.
pub open spec fn relay_answer(o: WriteOutcome) -> RelayAction {
    match o {
        WriteOutcome::Sent => RelayAction::Delivered,
        WriteOutcome::WouldBlock => RelayAction::Dropped,
        WriteOutcome::Failed => RelayAction::LogError,
    }
}

/// One session with the game server.
pub struct Session {
    state: ConnectionState,
}

impl Session {
    /// The state of the connection.
    pub closed spec fn spec_state(&self) -> ConnectionState {
        self.state
    }

    /// A session that has not asked for a connection yet.
    pub fn new() -> (r: Session)
        ensures
            r.spec_state() == ConnectionState::NotStarted,
    {
        Session { state: ConnectionState::NotStarted }
    }

    /// The state of the connection.
    pub fn state(&self) -> (r: ConnectionState)
        ensures
            r == self.spec_state(),
    {
        self.state
    }

    /// The startup event asks for a connection.
    pub fn setup_connection(&mut self) -> (r: BootstrapAction)
        ensures
            (final(self).spec_state(), r) == setup_step(old(self).spec_state()),
    {
        match self.state {
            ConnectionState::NotStarted | ConnectionState::Failed => {
                self.state = ConnectionState::InFlight;
                BootstrapAction::SpawnHandshake
            },
            _ => BootstrapAction::Ignore,
        }
    }

    /// The host polled the background handshake.
    pub fn handle_tasks(&mut self, outcome: HandshakeOutcome) -> (r: BootstrapAction)
        ensures
            (final(self).spec_state(), r) == handshake_step(old(self).spec_state(), outcome),
    {
        match (self.state, outcome) {
            (ConnectionState::InFlight, HandshakeOutcome::Succeeded) => {
                self.state = ConnectionState::Ready;
                BootstrapAction::InstallConnection
            },
            (ConnectionState::InFlight, HandshakeOutcome::Failed) => {
                self.state = ConnectionState::Failed;
                BootstrapAction::ReportFailure
            },
            _ => BootstrapAction::Ignore,
        }
    }

    /// One tick of the pump, given what one non-blocking read gave. A frame is
    /// decoded and dispatched at once; a would-block is no error and asks for
    /// nothing, not even a retry; an error is logged and the connection stays.
    pub fn receive_ws_msg(&self, read: ReadOutcome) -> (r: PumpAction)
        ensures
            pump_answers(self.spec_state(), read, r),
    {
        if self.state != ConnectionState::Ready {
            return PumpAction::Idle;
        }
        match read {
            ReadOutcome::Frame(t) => {
                let env = decode_envelope(t.as_str());
                let e = dispatch(&env);
                PumpAction::Deliver(env, e)
            },
            ReadOutcome::NotText => PumpAction::Deliver(GenericIncomingRequest::empty(), None),
            ReadOutcome::WouldBlock => PumpAction::Idle,
            ReadOutcome::Failed(m) => PumpAction::LogError(m),
        }
    }

    /// The text that the join relay writes for an intent, where a connection
    /// is installed; `None` where there is none to write to.
    pub fn join_request_bevy_event_listener(&self, ev: &JoinRequestEvent) -> (r: Option<String>)
        ensures
            match r {
                Some(t) => self.spec_state() == ConnectionState::Ready && t@ == join_text(ev.0@),
                None => self.spec_state() != ConnectionState::Ready,
            },
    {
        if self.state == ConnectionState::Ready {
            Some(encode_join(ev.0.as_str()))
        } else {
            None
        }
    }

    /// The text that the move relay writes for an intent, where a connection
    /// is installed and both directions are JSON number texts or `null`;
    /// `None` where there is nothing to write.
    pub fn move_request_bevy_event_listener(&self, ev: &MoveRequestEvent) -> (r: Option<String>)
        ensures
            match r {
                Some(t) => self.spec_state() == ConnectionState::Ready && is_direction_text(ev.0@)
                    && is_direction_text(ev.1@) && t@ == move_text(ev.0@, ev.1@),
                None => self.spec_state() != ConnectionState::Ready || !is_direction_text(ev.0@)
                    || !is_direction_text(ev.1@),
            },
    {
        if self.state == ConnectionState::Ready {
            encode_move(ev.0.as_str(), ev.1.as_str())
        } else {
            None
        }
    }

    /// What a relay does after a write: a would-block drops the request
    /// silently, any other error drops it and is logged.
    pub fn relay_outcome(outcome: WriteOutcome) -> (r: RelayAction)
        ensures
            r == relay_answer(outcome),
    {
        match outcome {
            WriteOutcome::Sent => RelayAction::Delivered,
            WriteOutcome::WouldBlock => RelayAction::Dropped,
            WriteOutcome::Failed => RelayAction::LogError,
        }
    }
}

/// A read or a write that would block asks for nothing more: the pump idles
/// until the next tick and the relay drops its request, with no retry and no
/// change to the connection.
pub proof fn lemma_would_block_asks_nothing(s: ConnectionState, a: PumpAction)
    requires
        pump_answers(s, ReadOutcome::WouldBlock, a),
    ensures
        a is Idle,
        relay_answer(WriteOutcome::WouldBlock) == RelayAction::Dropped,
{
}

/// The envelopes that `n` ticks deliver from a connection whose buffer holds
/// the frames `buffer`, and the frames left: each tick reads the oldest frame,
/// or would block on an empty buffer.
pub open spec fn run_ticks(buffer: Seq<Seq<char>>, n: nat) -> (Seq<GenericIncomingRequest>, Seq<Seq<char>>)
    decreases n,
{
    if n == 0 {
        (Seq::empty(), buffer)
    } else if buffer.len() == 0 {
        run_ticks(buffer, (n - 1) as nat)
    } else {
        let (rest_delivered, left) = run_ticks(buffer.drop_first(), (n - 1) as nat);
        (seq![envelope_of_text(buffer[0])] + rest_delivered, left)
    }
}

/// With N frames buffered, N ticks deliver the envelope of every frame,
/// each once and in the order they arrived, and leave the buffer empty.
pub proof fn lemma_ticks_drain_in_order(buffer: Seq<Seq<char>>)
    ensures
        run_ticks(buffer, buffer.len()).0 == buffer.map_values(|f: Seq<char>| envelope_of_text(f)),
        run_ticks(buffer, buffer.len()).1.len() == 0,
    decreases buffer.len(),
{
    if buffer.len() > 0 {
        lemma_ticks_drain_in_order(buffer.drop_first());
        assert(buffer.map_values(|f: Seq<char>| envelope_of_text(f)) == seq![envelope_of_text(buffer[0])]
            + buffer.drop_first().map_values(|f: Seq<char>| envelope_of_text(f)));
    } else {
        assert(buffer.map_values(|f: Seq<char>| envelope_of_text(f)) == Seq::<GenericIncomingRequest>::empty());
    }
}

} // verus!
