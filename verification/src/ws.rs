//! The WebSocket session and its command actor.
//!
//! A session serializes all concurrent send/receive/close requests through a
//! single actor that owns the socket: commands are processed strictly in
//! submission order, one at a time, each to completion before the next is
//! taken. `Close` is terminal — the actor sends a close frame and exits, and
//! every command submitted afterwards fails with a disconnected error
//! without touching the socket. The decision logic of the actor is verified
//! here; the transport edge performs the returned actions.

use vstd::prelude::*;

use crate::error::Error;
use crate::http::{SocketAddr, StatusCode, Version};

verus! {

/// The close code used when a `Close` command carries none.
pub const DEFAULT_CLOSE_CODE: u16 = 1000;

/// A WebSocket message, opaque payload data passed through to the
/// transport; the actor interprets nothing but the `Close` variant.
#[derive(Clone, Debug)]
pub enum Message {
    /// A text message.
    Text(String),
    /// A binary message.
    Binary(Vec<u8>),
    /// A ping frame.
    Ping(Vec<u8>),
    /// A pong frame.
    Pong(Vec<u8>),
    /// A close frame with an optional code and reason.
    Close(Option<u16>, Option<String>),
}

/// The mathematical model of a message.
pub enum MessageModel {
    Text(Seq<char>),
    Binary(Seq<u8>),
    Ping(Seq<u8>),
    Pong(Seq<u8>),
    Close(Option<u16>, Option<Seq<char>>),
}

impl View for Message {
    type V = MessageModel;

    open spec fn view(&self) -> MessageModel {
        match self {
            Message::Text(t) => MessageModel::Text(t@),
            Message::Binary(d) => MessageModel::Binary(d@),
            Message::Ping(d) => MessageModel::Ping(d@),
            Message::Pong(d) => MessageModel::Pong(d@),
            Message::Close(c, r) => MessageModel::Close(
                *c,
                match r {
                    Some(s) => Some(s@),
                    None => None,
                },
            ),
        }
    }
}

impl Message {
    /// A text message.
    pub fn from_text(text: String) -> (r: Message)
        ensures
            r@ == MessageModel::Text(text@),
    {
        Message::Text(text)
    }

    /// A binary message.
    pub fn from_binary(data: Vec<u8>) -> (r: Message)
        ensures
            r@ == MessageModel::Binary(data@),
    {
        Message::Binary(data)
    }

    /// A ping frame.
    pub fn from_ping(data: Vec<u8>) -> (r: Message)
        ensures
            r@ == MessageModel::Ping(data@),
    {
        Message::Ping(data)
    }

    /// A pong frame.
    pub fn from_pong(data: Vec<u8>) -> (r: Message)
        ensures
            r@ == MessageModel::Pong(data@),
    {
        Message::Pong(data)
    }

    /// A close frame with an optional code and reason.
    pub fn from_close(code: Option<u16>, reason: Option<String>) -> (r: Message)
        ensures
            r@ == MessageModel::Close(
                code,
                match reason {
                    Some(s) => Some(s@),
                    None => None::<Seq<char>>,
                },
            ),
    {
        Message::Close(code, reason)
    }

    /// A text message carrying a serialized JSON value: the canonical
    /// serialization is always valid UTF-8 text.
    pub fn from_json(value: &crate::json::Json) -> (r: Message)
        ensures
            (r@ matches MessageModel::Text(t) && vstd::utf8::encode_utf8(t)
                == crate::json::spec_json_bytes(*value)),
    {
        let bytes = value.to_bytes();
        proof {
            crate::json::lemma_json_bytes_valid_utf8(*value);
        }
        match crate::outside::utf8_to_str(bytes.as_slice()) {
            Some(s) => Message::Text(s.to_owned()),
            None => {
                proof {
                    assert(false);
                }
                Message::Text(String::new())
            },
        }
    }

    /// The text of a text message, `None` for every other kind.
    pub fn text(&self) -> (r: Option<&String>)
        ensures
            match self@ {
                MessageModel::Text(t) => r matches Some(s) && s@ == t,
                _ => r is None,
            },
    {
        match self {
            Message::Text(t) => Some(t),
            _ => None,
        }
    }

    /// The payload bytes of a binary, ping or pong message, `None` for text
    /// and close frames.
    pub fn binary(&self) -> (r: Option<&Vec<u8>>)
        ensures
            match self@ {
                MessageModel::Binary(d) => r matches Some(s) && s@ == d,
                MessageModel::Ping(d) => r matches Some(s) && s@ == d,
                MessageModel::Pong(d) => r matches Some(s) && s@ == d,
                _ => r is None,
            },
    {
        match self {
            Message::Binary(d) => Some(d),
            Message::Ping(d) => Some(d),
            Message::Pong(d) => Some(d),
            _ => None,
        }
    }

    /// The code of a close frame, `None` for every other kind or when the
    /// frame carries no code.
    pub fn close_code(&self) -> (r: Option<u16>)
        ensures
            match self@ {
                MessageModel::Close(c, _) => r == c,
                _ => r is None,
            },
    {
        match self {
            Message::Close(c, _) => *c,
            _ => None,
        }
    }
}

/// A command submitted to the actor, one of the three WebSocket operations.
#[derive(Clone, Debug)]
pub enum Command {
    /// Transmit a message.
    Send(Message),
    /// Await the next incoming message, with an optional timeout in
    /// milliseconds.
    Recv(Option<u64>),
    /// Close the connection with an optional code and reason.
    Close(Option<u16>, Option<String>),
}

/// The mathematical model of a command.
pub enum CommandModel {
    Send(MessageModel),
    Recv(Option<u64>),
    Close(Option<u16>, Option<Seq<char>>),
}

impl View for Command {
    type V = CommandModel;

    open spec fn view(&self) -> CommandModel {
        match self {
            Command::Send(m) => CommandModel::Send(m@),
            Command::Recv(t) => CommandModel::Recv(*t),
            Command::Close(c, r) => CommandModel::Close(
                *c,
                match r {
                    Some(s) => Some(s@),
                    None => None,
                },
            ),
        }
    }
}

/// The lifecycle state of the actor: `Open` until it has accepted a `Close`
/// command or its channel dropped, then `Closed` forever.
#[derive(Clone, Copy, PartialEq, Eq, Structural, Debug)]
pub enum ActorState {
    Open,
    Closed,
}

/// What the transport edge must do for one processed command.
#[derive(Clone, Debug)]
pub enum Action {
    /// Send the message over the socket and reply with the outcome.
    Transmit(Message),
    /// Await one incoming message, bounded by the optional timeout in
    /// milliseconds, and reply with the outcome.
    AwaitMessage(Option<u64>),
    /// Send a close frame with this effective code and reason, flush, shut
    /// the socket down, reply success, and exit the actor loop.
    SendClose(u16, String),
    /// Touch nothing and reply with the disconnected error.
    Reject,
}

/// The mathematical model of an action.
pub enum ActionModel {
    Transmit(MessageModel),
    AwaitMessage(Option<u64>),
    SendClose(u16, Seq<char>),
    Reject,
}

impl View for Action {
    type V = ActionModel;

    open spec fn view(&self) -> ActionModel {
        match self {
            Action::Transmit(m) => ActionModel::Transmit(m@),
            Action::AwaitMessage(t) => ActionModel::AwaitMessage(*t),
            Action::SendClose(c, r) => ActionModel::SendClose(*c, r@),
            Action::Reject => ActionModel::Reject,
        }
    }
}

/// The reason text used when a `Close` command carries none.
pub open spec fn spec_default_close_reason() -> Seq<char> {
    "Goodbye"@
}

/// The model of one actor step: which action a command triggers in a state,
/// and the state left behind. Send and Recv keep the session open — a
/// receive timeout in particular does not close the connection. Close moves
/// to `Closed` with the explicit or default code and reason. In `Closed`
/// every command is rejected without touching the socket.
pub open spec fn spec_actor_step(s: ActorState, cmd: CommandModel) -> (ActorState, ActionModel) {
    match s {
        ActorState::Open => match cmd {
            CommandModel::Send(m) => (ActorState::Open, ActionModel::Transmit(m)),
            CommandModel::Recv(t) => (ActorState::Open, ActionModel::AwaitMessage(t)),
            CommandModel::Close(code, reason) => (
                ActorState::Closed,
                ActionModel::SendClose(
                    match code {
                        Some(c) => c,
                        None => DEFAULT_CLOSE_CODE as u16,
                    },
                    match reason {
                        Some(r) => r,
                        None => spec_default_close_reason(),
                    },
                ),
            ),
        },
        ActorState::Closed => (ActorState::Closed, ActionModel::Reject),
    }
}

/// One step of the actor loop: the single place a command meets the socket.
pub fn actor_step(s: ActorState, cmd: Command) -> (r: (ActorState, Action))
    ensures
        r.0 == spec_actor_step(s, cmd@).0,
        r.1@ == spec_actor_step(s, cmd@).1,
{
    match s {
        ActorState::Open => match cmd {
            Command::Send(m) => (ActorState::Open, Action::Transmit(m)),
            Command::Recv(t) => (ActorState::Open, Action::AwaitMessage(t)),
            Command::Close(code, reason) => {
                let c: u16 = match code {
                    Some(c) => c,
                    None => DEFAULT_CLOSE_CODE,
                };
                let r: String = match reason {
                    Some(r) => r,
                    None => "Goodbye".to_owned(),
                };
                (ActorState::Closed, Action::SendClose(c, r))
            },
        },
        ActorState::Closed => (ActorState::Closed, Action::Reject),
    }
}

/// The actor state after the first `i` of the given commands have been
/// processed, starting from `Open`.
pub open spec fn spec_state_after(cmds: Seq<CommandModel>, i: int) -> ActorState
    decreases i,
{
    if i <= 0 {
        ActorState::Open
    } else {
        spec_actor_step(spec_state_after(cmds, i - 1), cmds[i - 1]).0
    }
}

/// Processes a whole command queue in submission order, starting from a
/// freshly opened session.
///
/// Every submitted command gets exactly one action — in particular a
/// pending `Recv` submitted before a `Close` is still answered, because the
/// actor takes commands strictly in order and never abandons one. The
/// action of each command is the step action at the state its prefix leaves
/// behind.
pub fn run_queue(cmds: Vec<Command>) -> (r: Vec<Action>)
    ensures
        r@.len() == cmds@.len(),
        forall|i: int|
            0 <= i < cmds@.len() ==> #[trigger] r@[i]@ == spec_actor_step(
                spec_state_after(cmds@.map_values(|c: Command| c@), i),
                cmds@[i]@,
            ).1,
{
    let ghost model = cmds@.map_values(|c: Command| c@);
    let mut out: Vec<Action> = Vec::new();
    let mut state = ActorState::Open;
    let mut i: usize = 0;
    let n = cmds.len();
    let mut rest = cmds;
    proof {
        assert(forall|j: int| 0 <= j < n ==> #[trigger] model[j] == rest@[j]@);
    }
    while i < n
        invariant
            i <= n,
            model.len() == n,
            rest@.len() == n - i,
            forall|j: int| 0 <= j < n - i ==> #[trigger] rest@[j]@ == model[i + j],
            out@.len() == i,
            state == spec_state_after(model, i as int),
            forall|j: int|
                0 <= j < i ==> #[trigger] out@[j]@ == spec_actor_step(
                    spec_state_after(model, j),
                    model[j],
                ).1,
        decreases n - i,
    {
        let cmd = rest.remove(0);
        proof {
            assert(cmd@ == model[i as int]);
        }
        let (next, action) = actor_step(state, cmd);
        out.push(action);
        state = next;
        i = i + 1;
    }
    out
}

/// After any queue that holds a `Close` among its commands, the actor is
/// `Closed`, and every command processed after the first `Close` is
/// rejected.
pub proof fn lemma_close_is_terminal(cmds: Seq<CommandModel>, i: int, j: int)
    requires
        0 <= i < j < cmds.len(),
        cmds[i] is Close,
        spec_state_after(cmds, i) == ActorState::Open,
    ensures
        spec_state_after(cmds, j) == ActorState::Closed,
        spec_actor_step(spec_state_after(cmds, j), cmds[j]).1 == ActionModel::Reject,
    decreases j,
{
    if j == i + 1 {
        assert(spec_state_after(cmds, j) == spec_actor_step(ActorState::Open, cmds[i]).0);
    } else {
        lemma_close_is_terminal(cmds, i, j - 1);
        assert(spec_state_after(cmds, j) == spec_actor_step(ActorState::Closed, cmds[j - 1]).0);
    }
}

/// A receive that times out reports the timeout error specifically — not a
/// generic transport error — and leaves the session `Open`, so the next
/// receive on the same session is dispatched to the socket again.
pub proof fn lemma_recv_timeout_keeps_session(t: Option<u64>, t2: Option<u64>)
    ensures
        spec_actor_step(ActorState::Open, CommandModel::Recv(t)).0 == ActorState::Open,
        spec_actor_step(
            spec_actor_step(ActorState::Open, CommandModel::Recv(t)).0,
            CommandModel::Recv(t2),
        ).1 == ActionModel::AwaitMessage(t2),
{
}

/// The outcome a receive command reports: the transport edge hands in
/// either the race winner (`None` when the timer won) or the socket's
/// result — the next message, the end of the stream, or a transport fault.
///
/// A timeout is reported as the timeout error specifically; everything else
/// passes through unchanged.
pub fn recv_outcome(received: Option<Result<Option<Message>, Error>>) -> (r: Result<
    Option<Message>,
    Error,
>)
    ensures
        received is None ==> r == Result::<Option<Message>, Error>::Err(Error::Timeout),
        received matches Some(x) ==> r == x,
{
    match received {
        None => Err(Error::Timeout),
        Some(x) => x,
    }
}

/// A WebSocket session: immutable upgrade metadata plus the session's view
/// of the actor lifecycle. Submitting a command first checks that the actor
/// is still alive; a command submitted after close fails with the
/// disconnected error without contacting the actor.
#[derive(Debug)]
pub struct WebSocketSession {
    /// The status code of the upgrade response.
    pub status: StatusCode,
    /// The HTTP version of the upgrade response.
    pub version: Version,
    /// The headers of the upgrade response.
    pub headers: Vec<(String, Vec<u8>)>,
    /// The negotiated sub-protocol, if any.
    pub protocol: Option<String>,
    /// The remote address of the connection.
    pub remote_addr: Option<SocketAddr>,
    /// The local address of the connection.
    pub local_addr: Option<SocketAddr>,
    /// The session's view of the actor lifecycle.
    pub actor: ActorState,
}

/// The immutable upgrade metadata of a session, everything but the actor
/// state. Submitting commands never touches it.
pub open spec fn spec_same_session_metadata(a: WebSocketSession, b: WebSocketSession) -> bool {
    &&& a.status == b.status
    &&& a.version == b.version
    &&& a.headers == b.headers
    &&& a.protocol == b.protocol
    &&& a.remote_addr == b.remote_addr
    &&& a.local_addr == b.local_addr
}

impl WebSocketSession {
    /// A freshly opened session from the upgrade response's metadata: the
    /// actor starts `Open`, ready to accept commands.
    pub fn new(
        status: StatusCode,
        version: Version,
        headers: Vec<(String, Vec<u8>)>,
        protocol: Option<String>,
        remote_addr: Option<SocketAddr>,
        local_addr: Option<SocketAddr>,
    ) -> (r: WebSocketSession)
        ensures
            r.status == status,
            r.version == version,
            r.headers == headers,
            r.protocol == protocol,
            r.remote_addr == remote_addr,
            r.local_addr == local_addr,
            r.actor is Open,
    {
        WebSocketSession { status, version, headers, protocol, remote_addr, local_addr, actor: ActorState::Open }
    }

    /// The negotiated sub-protocol, if any.
    pub fn protocol(&self) -> (r: Option<&String>)
        ensures
            match (r, self.protocol) {
                (Some(a), Some(b)) => a@ == b@,
                (None, None) => true,
                _ => false,
            },
    {
        self.protocol.as_ref()
    }

    /// Submits a send command: accepted with the transmit action while the
    /// session is open, rejected with the disconnected error after close.
    pub fn send(&mut self, message: Message) -> (r: Result<Action, Error>)
        ensures
            spec_same_session_metadata(*final(self), *old(self)),
            final(self).actor == old(self).actor,
            old(self).actor is Open ==> (r matches Ok(a) && a@ == ActionModel::Transmit(message@)),
            old(self).actor is Closed ==> r == Result::<Action, Error>::Err(Error::Disconnected),
    {
        match self.actor {
            ActorState::Open => {
                let (next, action) = actor_step(ActorState::Open, Command::Send(message));
                self.actor = next;
                Ok(action)
            },
            ActorState::Closed => Err(Error::Disconnected),
        }
    }

    /// Submits a receive command with an optional timeout in milliseconds.
    pub fn recv(&mut self, timeout: Option<u64>) -> (r: Result<Action, Error>)
        ensures
            spec_same_session_metadata(*final(self), *old(self)),
            final(self).actor == old(self).actor,
            old(self).actor is Open ==> (r matches Ok(a) && a@ == ActionModel::AwaitMessage(timeout)),
            old(self).actor is Closed ==> r == Result::<Action, Error>::Err(Error::Disconnected),
    {
        match self.actor {
            ActorState::Open => {
                let (next, action) = actor_step(ActorState::Open, Command::Recv(timeout));
                self.actor = next;
                Ok(action)
            },
            ActorState::Closed => Err(Error::Disconnected),
        }
    }

    /// Submits a close command. The first close is accepted and terminates
    /// the actor; any close after that fails with the disconnected error,
    /// and exactly one close per session is ever sent on the wire.
    pub fn close(&mut self, code: Option<u16>, reason: Option<String>) -> (r: Result<Action, Error>)
        ensures
            spec_same_session_metadata(*final(self), *old(self)),
            final(self).actor is Closed,
            old(self).actor is Open ==> (r matches Ok(a) && a@ == spec_actor_step(
                ActorState::Open,
                CommandModel::Close(
                    code,
                    match reason {
                        Some(s) => Some(s@),
                        None => None::<Seq<char>>,
                    },
                ),
            ).1),
            old(self).actor is Closed ==> r == Result::<Action, Error>::Err(Error::Disconnected),
    {
        match self.actor {
            ActorState::Open => {
                let (next, action) = actor_step(ActorState::Open, Command::Close(code, reason));
                self.actor = next;
                Ok(action)
            },
            ActorState::Closed => Err(Error::Disconnected),
        }
    }
}

} // verus!
