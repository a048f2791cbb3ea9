//! The connection's state machine. The transport, the upstream connector
//! and the resolver do the outside work; after each piece of it they hand
//! in an event, and `process` answers with the next state and the next
//! action.

use crate::aead::sealed;
use crate::aead::TAG_LEN;
use crate::config::Config;
use crate::header::decode;
use crate::header::decode_spec;
use crate::header::header_length;
use crate::header::header_length_spec;
use crate::header::Command;
use crate::header::HandshakeError;
use crate::header::COMMAND_TCP;
use crate::relay::candidate_list;
use crate::relay::candidates;
use crate::relay::endpoint;
use crate::relay::endpoint_spec;
use crate::relay::texts;
use crate::response::encode_response;
use crate::response::length_iv;
use crate::response::length_key;
use crate::response::length_plain;
use crate::response::payload_iv;
use crate::response::payload_key;
use crate::response::payload_plain;
use crate::response::ResponseHeader;
use crate::stream::RelayBuffer;
use vstd::prelude::*;
use vstd::string::StringExecFns;
use vstd::slice::slice_subrange;
use vstd::slice::slice_to_vec;

verus! {

/// Longest inbound message that is read as a query.
pub const MAX_QUERY_LEN: usize = 65535;

/// Where a connection stands.
#[derive(Clone, Copy, Debug, PartialEq, Eq, Structural)]
pub enum Stage {
    /// Waiting for the bytes of the preamble.
    AwaitPreamble,
    /// Waiting for the sealed command.
    AwaitBody,
    /// The response header is being written.
    AwaitAck,
    /// A candidate is being connected to.
    Connecting,
    /// Bytes are copied between client and upstream.
    Copying,
    /// Waiting for the one inbound message of a non-TCP command.
    AwaitQuery,
    /// The query is being resolved.
    Resolving,
    /// The query is being written back.
    AwaitEcho,
    /// The connection ended cleanly.
    Closed,
    /// The connection failed.
    Failed,
}

/// The four states of a connection.
#[derive(Clone, Copy, Debug, PartialEq, Eq, Structural)]
pub enum Phase {
    Handshaking,
    Relaying,
    Closed,
    Failed,
}

/// What the outside work gave.
pub enum Event {
    /// The bytes that a read gave: all that were asked for, or fewer where
    /// the stream ended first.
    Bytes(Vec<u8>),
    /// What was to be sent has been sent.
    Written,
    /// The transport failed or closed.
    TransportFailed,
    /// The upstream connection is open and ready.
    Connected,
    /// The upstream connection did not open, with the reason.
    ConnectFailed(String),
    /// Copying ended because one side closed.
    CopyDone,
    /// Copying failed, with the reason.
    CopyFailed(String),
    /// One inbound message.
    Message(Vec<u8>),
    /// Whether the resolver answered the query.
    Resolved(bool),
}

/// Why a connection failed.
pub enum RelayError {
    /// The request header was rejected.
    Handshake(HandshakeError),
    /// The transport failed or closed.
    Transport,
    /// No candidate could be relayed to: the reasons, one for each
    /// attempt, in the order of the attempts.
    AllFailed(Vec<String>),
    /// An event came that the state does not wait for.
    Unexpected,
}

/// A list of texts as std's `Debug` writes it.
pub uninterp spec fn debug_text(list: Seq<Seq<char>>) -> Seq<char>;

/// Calls std's `Debug` formatting on a list of strings. Trusted: the
/// result is a function of the texts alone.
#[verifier::external_body]
pub(crate) fn debug_list(list: &Vec<String>) -> (r: String)
    ensures
        r@ == debug_text(texts(list@)),
{
    format!("{list:?}")
}

/// The text of an error.
pub open spec fn message_spec(e: RelayError) -> Seq<char> {
    match e {
        RelayError::Handshake(HandshakeError::Authentication) => "authentication failed"@,
        RelayError::Handshake(HandshakeError::Stream) => "unexpected end of stream"@,
        RelayError::Handshake(HandshakeError::Decode) => "invalid command"@,
        RelayError::Transport => "transport failed"@,
        RelayError::AllFailed(list) => "all tcp attempts failed: "@ + debug_text(texts(list@)),
        RelayError::Unexpected => "unexpected event"@,
    }
}

impl RelayError {
    /// The text of the error, for a log. The error of a relay that no
    /// candidate took lists the reason of every attempt.
    pub fn message(&self) -> (r: String)
        ensures
            r@ == message_spec(*self),
    {
        match self {
            RelayError::Handshake(HandshakeError::Authentication) => String::from_str(
                "authentication failed",
            ),
            RelayError::Handshake(HandshakeError::Stream) => String::from_str(
                "unexpected end of stream",
            ),
            RelayError::Handshake(HandshakeError::Decode) => String::from_str("invalid command"),
            RelayError::Transport => String::from_str("transport failed"),
            RelayError::AllFailed(list) => {
                let mut out = String::from_str("all tcp attempts failed: ");
                let reasons = debug_list(list);
                out.append(reasons.as_str());
                out
            },
            RelayError::Unexpected => String::from_str("unexpected event"),
        }
    }
}

/// What is to be done next.
pub enum Action {
    /// Read exactly this many bytes from the client stream.
    Read(usize),
    /// Write the two frames of the response header, and flush.
    SendAck(ResponseHeader),
    /// Open a TCP connection to this host and port.
    Connect(String, u16),
    /// Copy bytes in both directions until either side closes.
    Copy,
    /// Read one inbound message of at most this many bytes.
    ReadMessage(usize),
    /// Resolve these bytes as a DNS query.
    Resolve(Vec<u8>),
    /// Write these bytes to the client stream.
    Send(Vec<u8>),
    /// End the connection without an error.
    Done,
    /// End the connection with this error.
    Fail(RelayError),
}

/// One connection: its configuration, the adapter's buffer and the state
/// of the protocol.
pub struct VmessStream {
    pub config: Config,
    pub buffer: RelayBuffer,
    pub stage: Stage,
    pub preamble: Vec<u8>,
    pub command: Option<Command>,
    pub candidates: Vec<String>,
    pub attempt: usize,
    pub errors: Vec<String>,
    pub query: Vec<u8>,
}

/// What is kept over every step.
pub open spec fn kept(pre: VmessStream, post: VmessStream) -> bool {
    post.config == pre.config && post.buffer == pre.buffer
}

/// The action connects to the candidate of the current attempt.
pub open spec fn connects(s: VmessStream, action: Action) -> bool {
    action matches Action::Connect(host, port) && (host@, port) == endpoint_spec(
        s.candidates@[s.attempt as int]@,
        texts(s.config.proxy_ip@),
        s.command->Some_0.port,
    )
}

/// The connection fails with the reasons so far and one more.
pub open spec fn fails_with_all(pre: VmessStream, msg: String, post: VmessStream, action: Action) -> bool {
    post.stage == Stage::Failed && (action matches Action::Fail(RelayError::AllFailed(list))
        && list@ == pre.errors@.push(msg))
}

/// The step on the bytes of the preamble: the announced length and the
/// tag are read next, or the connection is rejected.
pub open spec fn after_preamble(pre: VmessStream, bytes: Seq<u8>, post: VmessStream, action: Action) -> bool {
    match header_length_spec(pre.config.uuid@, bytes) {
        Ok(n) => post.stage == Stage::AwaitBody && post.preamble@ == bytes && action
            == Action::Read((n + TAG_LEN) as usize),
        Err(e) => post.stage == Stage::Failed && action == Action::Fail(RelayError::Handshake(e)),
    }
}

/// The step on the sealed command: the response header is written next,
/// or the connection is rejected.
pub open spec fn after_body(pre: VmessStream, bytes: Seq<u8>, post: VmessStream, action: Action) -> bool {
    match decode_spec(pre.config.uuid@, pre.preamble@, bytes) {
        Ok(cv) => {
            &&& post.stage == Stage::AwaitAck
            &&& post.command matches Some(c) && c@ == cv
            &&& action matches Action::SendAck(h) && h.length@ == sealed(
                length_key(cv.key),
                length_iv(cv.iv),
                Seq::empty(),
                length_plain(),
            ) && h.payload@ == sealed(
                payload_key(cv.key),
                payload_iv(cv.iv),
                Seq::empty(),
                payload_plain(cv.options),
            )
        },
        Err(e) => post.stage == Stage::Failed && action == Action::Fail(RelayError::Handshake(e)),
    }
}

/// The step after the response header was written: a TCP command starts
/// with its first candidate, the decoded target; any other command waits
/// for one inbound message.
pub open spec fn after_ack(pre: VmessStream, post: VmessStream, action: Action) -> bool {
    let cmd = pre.command->Some_0;
    post.command == pre.command && if cmd.command == COMMAND_TCP {
        &&& post.stage == Stage::Connecting
        &&& post.attempt == 0
        &&& post.errors@.len() == 0
        &&& texts(post.candidates@) == candidate_list(cmd.address@, texts(pre.config.proxy_ip@))
        &&& connects(post, action)
    } else {
        post.stage == Stage::AwaitQuery && action == Action::ReadMessage(MAX_QUERY_LEN)
    }
}

/// The step after a candidate did not open: the reason is recorded and the
/// next candidate is tried; after the last one the connection fails with
/// all reasons.
pub open spec fn after_connect_failed(pre: VmessStream, msg: String, post: VmessStream, action: Action) -> bool {
    if pre.attempt + 1 < pre.candidates@.len() {
        &&& post.stage == Stage::Connecting
        &&& post.attempt == pre.attempt + 1
        &&& post.errors@ == pre.errors@.push(msg)
        &&& post.candidates == pre.candidates
        &&& post.command == pre.command
        &&& connects(post, action)
    } else {
        fails_with_all(pre, msg, post, action)
    }
}

/// The step on the inbound message of a non-TCP command.
pub open spec fn after_message(pre: VmessStream, bytes: Seq<u8>, post: VmessStream, action: Action) -> bool {
    let q = if bytes.len() <= MAX_QUERY_LEN {
        bytes
    } else {
        bytes.take(MAX_QUERY_LEN as int)
    };
    post.stage == Stage::Resolving && post.query@ == q && (action matches Action::Resolve(d) && d@
        == q)
}

/// The step on the resolver's answer: the query itself is written back on
/// success; on failure the connection ends without an error and nothing is
/// written.
pub open spec fn after_resolved(pre: VmessStream, ok: bool, post: VmessStream, action: Action) -> bool {
    if ok {
        post.stage == Stage::AwaitEcho && (action matches Action::Send(d) && d@ == pre.query@)
    } else {
        post.stage == Stage::Closed && action == Action::Done
    }
}

/// An event that the state does not wait for fails the connection.
pub open spec fn unexpected(post: VmessStream, action: Action) -> bool {
    post.stage == Stage::Failed && action == Action::Fail(RelayError::Unexpected)
}

/// One step of a connection.
pub open spec fn step(pre: VmessStream, event: Event, post: VmessStream, action: Action) -> bool {
    &&& kept(pre, post)
    &&& if pre.stage == Stage::Closed || pre.stage == Stage::Failed {
        post.stage == pre.stage && action == Action::Fail(RelayError::Unexpected)
    } else {
        match event {
            Event::TransportFailed => post.stage == Stage::Failed && action == Action::Fail(
                RelayError::Transport,
            ),
            Event::Bytes(b) => if pre.stage == Stage::AwaitPreamble {
                after_preamble(pre, b@, post, action)
            } else if pre.stage == Stage::AwaitBody {
                after_body(pre, b@, post, action)
            } else {
                unexpected(post, action)
            },
            Event::Written => if pre.stage == Stage::AwaitAck {
                after_ack(pre, post, action)
            } else if pre.stage == Stage::AwaitEcho {
                post.stage == Stage::Closed && action == Action::Done
            } else {
                unexpected(post, action)
            },
            Event::Connected => if pre.stage == Stage::Connecting {
                &&& post.stage == Stage::Copying
                &&& action == Action::Copy
                &&& post.attempt == pre.attempt
                &&& post.errors == pre.errors
                &&& post.candidates == pre.candidates
                &&& post.command == pre.command
            } else {
                unexpected(post, action)
            },
            Event::ConnectFailed(msg) => if pre.stage == Stage::Connecting {
                after_connect_failed(pre, msg, post, action)
            } else {
                unexpected(post, action)
            },
            Event::CopyDone => if pre.stage == Stage::Copying {
                post.stage == Stage::Closed && action == Action::Done
            } else {
                unexpected(post, action)
            },
            Event::CopyFailed(msg) => if pre.stage == Stage::Copying {
                fails_with_all(pre, msg, post, action)
            } else {
                unexpected(post, action)
            },
            Event::Message(m) => if pre.stage == Stage::AwaitQuery {
                after_message(pre, m@, post, action)
            } else {
                unexpected(post, action)
            },
            Event::Resolved(ok) => if pre.stage == Stage::Resolving {
                after_resolved(pre, ok, post, action)
            } else {
                unexpected(post, action)
            },
        }
    }
}

impl VmessStream {
    /// What holds of a connection in every state: behind the handshake the
    /// command is known; while candidates are tried, they are the target
    /// followed by the fallbacks, and one reason is recorded for each
    /// candidate that was given up.
    pub open spec fn wf(&self) -> bool {
        &&& (self.stage == Stage::AwaitAck || self.stage == Stage::Connecting || self.stage
            == Stage::Copying) ==> (self.command matches Some(c) && c.wf())
        &&& (self.stage == Stage::Connecting || self.stage == Stage::Copying) ==> {
            &&& texts(self.candidates@) == candidate_list(
                self.command->Some_0.address@,
                texts(self.config.proxy_ip@),
            )
            &&& self.attempt < self.candidates@.len()
            &&& self.errors@.len() == self.attempt
        }
    }

    /// The state of the connection.
    pub open spec fn phase_spec(&self) -> Phase {
        match self.stage {
            Stage::AwaitPreamble | Stage::AwaitBody | Stage::AwaitAck => Phase::Handshaking,
            Stage::Closed => Phase::Closed,
            Stage::Failed => Phase::Failed,
            _ => Phase::Relaying,
        }
    }

    /// A connection at its start: it waits for the preamble, and nothing
    /// is buffered.
    pub fn new(config: Config) -> (s: Self)
        ensures
            s.config == config,
            s.stage == Stage::AwaitPreamble,
            s.buffer@ == Seq::<u8>::empty(),
            s.command is None,
            s.preamble@.len() == 0,
            s.candidates@.len() == 0,
            s.errors@.len() == 0,
            s.query@.len() == 0,
            s.attempt == 0,
            s.wf(),
    {
        VmessStream {
            config,
            buffer: RelayBuffer::new(),
            stage: Stage::AwaitPreamble,
            preamble: Vec::new(),
            command: None,
            candidates: Vec::new(),
            attempt: 0,
            errors: Vec::new(),
            query: Vec::new(),
        }
    }

    /// The state of the connection.
    pub fn phase(&self) -> (p: Phase)
        ensures
            p == self.phase_spec(),
    {
        match self.stage {
            Stage::AwaitPreamble | Stage::AwaitBody | Stage::AwaitAck => Phase::Handshaking,
            Stage::Closed => Phase::Closed,
            Stage::Failed => Phase::Failed,
            _ => Phase::Relaying,
        }
    }

    fn fail(&mut self, e: RelayError) -> (action: Action)
        ensures
            kept(*old(self), *final(self)),
            final(self).stage == Stage::Failed,
            action == Action::Fail(e),
            final(self).wf(),
    {
        self.stage = Stage::Failed;
        Action::Fail(e)
    }

    fn fail_all(&mut self, msg: String) -> (action: Action)
        ensures
            kept(*old(self), *final(self)),
            fails_with_all(*old(self), msg, *final(self), action),
            final(self).wf(),
    {
        let mut list: Vec<String> = Vec::new();
        core::mem::swap(&mut self.errors, &mut list);
        list.push(msg);
        self.stage = Stage::Failed;
        Action::Fail(RelayError::AllFailed(list))
    }

    fn connect(&self) -> (action: Action)
        requires
            self.command is Some,
            self.attempt < self.candidates@.len(),
        ensures
            connects(*self, action),
    {
        let port: u16 = match &self.command {
            Some(c) => c.port,
            None => 0,
        };
        let (host, to) = endpoint(&self.candidates[self.attempt], &self.config.proxy_ip, port);
        Action::Connect(host, to)
    }

    fn on_preamble(&mut self, bytes: Vec<u8>) -> (action: Action)
        requires
            old(self).stage == Stage::AwaitPreamble,
        ensures
            kept(*old(self), *final(self)),
            after_preamble(*old(self), bytes@, *final(self), action),
            final(self).wf(),
    {
        match header_length(self.config.uuid.as_slice(), bytes.as_slice()) {
            Ok(n) => {
                self.preamble = bytes;
                self.stage = Stage::AwaitBody;
                let len: usize = n as usize;
                Action::Read(len + TAG_LEN)
            },
            Err(e) => self.fail(RelayError::Handshake(e)),
        }
    }

    fn on_body(&mut self, bytes: Vec<u8>) -> (action: Action)
        requires
            old(self).stage == Stage::AwaitBody,
        ensures
            kept(*old(self), *final(self)),
            after_body(*old(self), bytes@, *final(self), action),
            final(self).wf(),
    {
        match decode(self.config.uuid.as_slice(), self.preamble.as_slice(), bytes.as_slice()) {
            Ok(cmd) => {
                match encode_response(&cmd) {
                    Ok(h) => {
                        self.command = Some(cmd);
                        self.stage = Stage::AwaitAck;
                        Action::SendAck(h)
                    },
                    Err(_) => self.fail(RelayError::Unexpected),
                }
            },
            Err(e) => self.fail(RelayError::Handshake(e)),
        }
    }

    fn on_ack(&mut self) -> (action: Action)
        requires
            old(self).stage == Stage::AwaitAck,
            old(self).wf(),
        ensures
            kept(*old(self), *final(self)),
            after_ack(*old(self), *final(self), action),
            final(self).wf(),
    {
        let tcp: bool = match &self.command {
            Some(c) => c.is_tcp(),
            None => false,
        };
        if tcp {
            let list = match &self.command {
                Some(c) => candidates(&c.address, &self.config.proxy_ip),
                None => Vec::new(),
            };
            self.candidates = list;
            self.attempt = 0;
            self.errors = Vec::new();
            self.stage = Stage::Connecting;
            self.connect()
        } else {
            self.stage = Stage::AwaitQuery;
            Action::ReadMessage(MAX_QUERY_LEN)
        }
    }

    fn on_connect_failed(&mut self, msg: String) -> (action: Action)
        requires
            old(self).stage == Stage::Connecting,
            old(self).wf(),
        ensures
            kept(*old(self), *final(self)),
            after_connect_failed(*old(self), msg, *final(self), action),
            final(self).wf(),
    {
        let total: usize = self.candidates.len();
        if self.attempt + 1 < total {
            self.errors.push(msg);
            self.attempt = self.attempt + 1;
            self.connect()
        } else {
            self.fail_all(msg)
        }
    }

    fn on_message(&mut self, bytes: Vec<u8>) -> (action: Action)
        requires
            old(self).stage == Stage::AwaitQuery,
        ensures
            kept(*old(self), *final(self)),
            after_message(*old(self), bytes@, *final(self), action),
            final(self).wf(),
    {
        let n: usize = if bytes.len() <= MAX_QUERY_LEN {
            bytes.len()
        } else {
            MAX_QUERY_LEN
        };
        let q = slice_to_vec(slice_subrange(bytes.as_slice(), 0, n));
        assert(q@ =~= if bytes@.len() <= MAX_QUERY_LEN {
            bytes@
        } else {
            bytes@.take(MAX_QUERY_LEN as int)
        });
        self.query = slice_to_vec(q.as_slice());
        self.stage = Stage::Resolving;
        Action::Resolve(q)
    }

    fn on_resolved(&mut self, ok: bool) -> (action: Action)
        requires
            old(self).stage == Stage::Resolving,
        ensures
            kept(*old(self), *final(self)),
            after_resolved(*old(self), ok, *final(self), action),
            final(self).wf(),
    {
        if ok {
            self.stage = Stage::AwaitEcho;
            Action::Send(slice_to_vec(self.query.as_slice()))
        } else {
            self.stage = Stage::Closed;
            Action::Done
        }
    }

    fn close(&mut self) -> (action: Action)
        ensures
            kept(*old(self), *final(self)),
            final(self).stage == Stage::Closed,
            action == Action::Done,
            final(self).wf(),
    {
        self.stage = Stage::Closed;
        Action::Done
    }

    /// Takes one event in and says what is to be done next. The handshake
    /// is never tried again after a rejection; candidates are tried in
    /// order, each once; a failure while copying is final.
    pub fn process(&mut self, event: Event) -> (action: Action)
        requires
            old(self).wf(),
        ensures
            final(self).wf(),
            step(*old(self), event, *final(self), action),
    {
        match self.stage {
            Stage::Closed | Stage::Failed => {
                return Action::Fail(RelayError::Unexpected);
            },
            _ => {},
        }
        let stage = self.stage;
        match event {
            Event::TransportFailed => self.fail(RelayError::Transport),
            Event::Bytes(b) => match stage {
                Stage::AwaitPreamble => self.on_preamble(b),
                Stage::AwaitBody => self.on_body(b),
                _ => self.fail(RelayError::Unexpected),
            },
            Event::Written => match stage {
                Stage::AwaitAck => self.on_ack(),
                Stage::AwaitEcho => self.close(),
                _ => self.fail(RelayError::Unexpected),
            },
            Event::Connected => match stage {
                Stage::Connecting => {
                    self.stage = Stage::Copying;
                    Action::Copy
                },
                _ => self.fail(RelayError::Unexpected),
            },
            Event::ConnectFailed(msg) => match stage {
                Stage::Connecting => self.on_connect_failed(msg),
                _ => self.fail(RelayError::Unexpected),
            },
            Event::CopyDone => match stage {
                Stage::Copying => self.close(),
                _ => self.fail(RelayError::Unexpected),
            },
            Event::CopyFailed(msg) => match stage {
                Stage::Copying => self.fail_all(msg),
                _ => self.fail(RelayError::Unexpected),
            },
            Event::Message(m) => match stage {
                Stage::AwaitQuery => self.on_message(m),
                _ => self.fail(RelayError::Unexpected),
            },
            Event::Resolved(ok) => match stage {
                Stage::Resolving => self.on_resolved(ok),
                _ => self.fail(RelayError::Unexpected),
            },
        }
    }
}

/// Where every candidate was given up, the surfaced error holds exactly
/// one reason for each candidate, the target and every fallback, in the
/// order of the attempts.
pub proof fn all_failed_is_complete(pre: VmessStream, msg: String, post: VmessStream, action: Action)
    requires
        pre.wf(),
        pre.stage == Stage::Connecting,
        step(pre, Event::ConnectFailed(msg), post, action),
        post.stage == Stage::Failed,
    ensures
        action matches Action::Fail(RelayError::AllFailed(list)) && list@.len()
            == pre.config.proxy_ip@.len() + 1 && list@ == pre.errors@.push(msg),
{
    assert(texts(pre.candidates@).len() == pre.candidates@.len());
    assert(texts(pre.config.proxy_ip@).len() == pre.config.proxy_ip@.len());
}

/// A connection that has ended stays as it ended: nothing is tried again
/// after a failure, and nothing follows a clean end.
pub proof fn ended_is_final(pre: VmessStream, event: Event, post: VmessStream, action: Action)
    requires
        step(pre, event, post, action),
        pre.phase_spec() == Phase::Closed || pre.phase_spec() == Phase::Failed,
    ensures
        post.phase_spec() == pre.phase_spec(),
        action == Action::Fail(RelayError::Unexpected),
{
}

/// Relaying begins only once the request header was decoded and the
/// response header was written.
pub proof fn relaying_follows_the_ack(
    pre: VmessStream,
    event: Event,
    post: VmessStream,
    action: Action,
)
    requires
        step(pre, event, post, action),
        pre.phase_spec() == Phase::Handshaking,
        post.phase_spec() == Phase::Relaying,
    ensures
        pre.stage == Stage::AwaitAck,
        event is Written,
{
}

/// The decoded target is always the first candidate that is connected to,
/// and the fallbacks follow in their configured order.
pub proof fn target_is_first(target: Seq<char>, fallbacks: Seq<Seq<char>>)
    ensures
        candidate_list(target, fallbacks)[0] == target,
        candidate_list(target, fallbacks).len() == fallbacks.len() + 1,
        forall|i: int|
            0 <= i < fallbacks.len() ==> (#[trigger] candidate_list(target, fallbacks)[i + 1])
                == fallbacks[i],
{
}

} // verus!
