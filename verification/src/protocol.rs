//! The gateway protocol as mathematics: what the frames of a connection
//! hold, what its write side does with them, and how the state of a
//! connection moves when a frame of the client comes in.

use crate::config::ConfigView;
use crate::flags::{permitted_intents, Intents};
use crate::frame::{CloseCode, CloseFrameView, MessageView};
use crate::payload::{
    Hello, IdentifyView, OpCode, ReadyView, ResumeView, ShardId, UnavailableGuild,
    HEARTBEAT_INTERVAL, READY_VERSION,
};
use crate::session::Session;
use vstd::prelude::*;

verus! {

/// What a gateway frame carries as its data.
pub enum PayloadView {
    Hello(Hello),
    Identify(IdentifyView),
    Resume(ResumeView),
    InvalidSession(bool),
    Ready(ReadyView),
    Heartbeat(u64),
    RawDispatch { event_type: Seq<char>, data: Seq<char> },
    Resumed,
}

/// A gateway frame: the operation, the data, and for a dispatch its sequence
/// number and the name of its event.
pub struct EnvelopeView {
    pub t: Option<Seq<char>>,
    pub s: Option<u64>,
    pub op: OpCode,
    pub d: Option<PayloadView>,
}

impl PayloadView {
    /// The name of the event that the payload is dispatched as, where it is
    /// dispatched.
    pub open spec fn dispatch_event_name(self) -> Option<Seq<char>> {
        match self {
            PayloadView::Ready(_) => Some("READY"@),
            PayloadView::Resumed => Some("RESUMED"@),
            PayloadView::RawDispatch { event_type, .. } => Some(event_type),
            _ => None,
        }
    }

    /// The operation of the frame that carries the payload.
    pub open spec fn op(self) -> OpCode {
        match self {
            PayloadView::Hello(_) => OpCode::Hello,
            PayloadView::Identify(_) => OpCode::Identify,
            PayloadView::Resume(_) => OpCode::Resume,
            PayloadView::InvalidSession(_) => OpCode::InvalidSession,
            PayloadView::Heartbeat(_) => OpCode::Heartbeat,
            PayloadView::Ready(_) => OpCode::Dispatch,
            PayloadView::RawDispatch { .. } => OpCode::Dispatch,
            PayloadView::Resumed => OpCode::Dispatch,
        }
    }

    /// The frame that carries the payload. A dispatch takes `sequence` as its
    /// number; any other frame has neither number nor name.
    pub open spec fn envelope(self, sequence: u64) -> EnvelopeView {
        match self.dispatch_event_name() {
            Some(name) => EnvelopeView {
                t: Some(name),
                s: Some(sequence),
                op: OpCode::Dispatch,
                d: Some(self),
            },
            None => EnvelopeView { t: None, s: None, op: self.op(), d: Some(self) },
        }
    }

    /// The payload that opens a connection.
    pub open spec fn hello() -> PayloadView {
        PayloadView::Hello(Hello { heartbeat_interval: HEARTBEAT_INTERVAL })
    }

    /// The payload that tells a client it has identified as the
    /// configuration's bot, under the given session.
    pub open spec fn ready(
        config: ConfigView,
        session_id: Seq<char>,
        shard: Option<ShardId>,
    ) -> PayloadView {
        PayloadView::Ready(
            ReadyView {
                application: config.bot.application(),
                guilds: Seq::<UnavailableGuild>::empty(),
                resume_gateway_url: config.externally_accessible_url,
                session_id,
                shard,
                user: config.bot.current_user(),
                version: READY_VERSION,
            },
        )
    }
}

impl EnvelopeView {
    /// The frame that acknowledges a client's heartbeat.
    pub open spec fn heartbeat_ack() -> EnvelopeView {
        EnvelopeView { t: None, s: None, op: OpCode::HeartbeatAck, d: None }
    }

    /// The frame by which the gateway asks a client for a heartbeat.
    pub open spec fn heartbeat() -> EnvelopeView {
        EnvelopeView { t: None, s: None, op: OpCode::Heartbeat, d: None }
    }

    /// Whether the frame is shaped as the protocol asks: a dispatch has a
    /// sequence number and a name, any other frame has neither.
    pub open spec fn well_formed(self) -> bool {
        if self.op == OpCode::Dispatch {
            self.s is Some && self.t is Some
        } else {
            self.s is None && self.t is None
        }
    }
}

/// What a connection's write side carries: a gateway frame, or a message of
/// the socket as it stands.
pub enum FrameView {
    Event(EnvelopeView),
    Raw(MessageView),
}

impl FrameView {
    /// Whether the frame is a dispatch.
    pub open spec fn is_dispatch(self) -> bool {
        self matches FrameView::Event(event) && event.op == OpCode::Dispatch
    }

    /// Whether the frame may be offered to a write side beside the payloads
    /// that it frames itself: a message of the socket, or a gateway frame
    /// that is well formed and no dispatch.
    pub open spec fn is_plain(self) -> bool {
        match self {
            FrameView::Event(event) => event.well_formed() && event.op != OpCode::Dispatch,
            FrameView::Raw(_) => true,
        }
    }

    /// Whether the frame closes the socket.
    pub open spec fn is_close(self) -> bool {
        self matches FrameView::Raw(message) && message is Close
    }

    /// The frame that closes the socket with a code and a reason.
    pub open spec fn close(code: CloseCode, reason: Seq<char>) -> FrameView {
        FrameView::Raw(MessageView::Close(Some(CloseFrameView { code, reason })))
    }
}

/// Why a connection cannot go on.
pub enum ErrorView {
    Websocket(Seq<char>),
    Sending(FrameView),
}

/// The number a sequence counter holds after it has given `sequence` out:
/// the next one, and zero after the greatest number of 64 bits.
pub open spec fn next_sequence(sequence: u64) -> u64 {
    if sequence == u64::MAX {
        0
    } else {
        (sequence + 1) as u64
    }
}

/// The write side of a connection.
pub struct WriterView {
    /// The number that the next dispatch takes.
    pub sequence: u64,
    /// Whether the write side takes no more frames.
    pub closed: bool,
    /// The frames taken and not yet handed to the socket, oldest first.
    pub pending: Seq<FrameView>,
    /// Every frame taken since the connection was made, oldest first.
    pub sent: Seq<FrameView>,
}

impl WriterView {
    /// The write side of a new connection.
    pub open spec fn fresh() -> WriterView {
        WriterView {
            sequence: 1,
            closed: false,
            pending: Seq::<FrameView>::empty(),
            sent: Seq::<FrameView>::empty(),
        }
    }

    /// The write side after `frame` was offered to it. An open write side
    /// takes the frame, and closes when the frame closes the socket; a closed
    /// one stays as it is.
    pub open spec fn enqueue(self, frame: FrameView) -> WriterView {
        if self.closed {
            self
        } else {
            WriterView {
                sequence: self.sequence,
                closed: frame.is_close(),
                pending: self.pending.push(frame),
                sent: self.sent.push(frame),
            }
        }
    }

    /// The frame that carries `payload` from this write side.
    pub open spec fn framed(self, payload: PayloadView) -> FrameView {
        FrameView::Event(payload.envelope(self.sequence))
    }

    /// The write side after `payload` was offered to it. A dispatch uses a
    /// sequence number up, whether or not the frame was taken.
    pub open spec fn send_data(self, payload: PayloadView) -> WriterView {
        let advanced = if payload.dispatch_event_name() is Some {
            WriterView { sequence: next_sequence(self.sequence), ..self }
        } else {
            self
        };
        advanced.enqueue(self.framed(payload))
    }

    /// The write side once the socket has stopped taking frames.
    pub open spec fn shut(self) -> WriterView {
        WriterView { closed: true, ..self }
    }

    /// The write side after the frames up to now were handed to the socket.
    pub open spec fn drained(self) -> WriterView {
        WriterView { pending: Seq::<FrameView>::empty(), ..self }
    }
}

/// The reason given when a frame of the client cannot be decoded.
pub const PAYLOAD_DECODE_ERROR_MSG: &'static str = "Error while decoding payload.";

/// The reason given when a client asks for intents it may not have.
pub const DISALLOWED_INTENTS_ERROR_MSG: &'static str = "Disallowed intent(s).";

/// The reason given when a client's token is not the bot's.
pub const AUTHENTICATION_FAILED_ERROR_MSG: &'static str = "Authentication failed.";

/// The close code for a frame that cannot be decoded.
pub const DECODE_ERROR_CODE: u16 = 4002;

/// The close code for a token that is not the bot's.
pub const AUTHENTICATION_FAILED_CODE: u16 = 4004;

/// The close code for intents the bot may not have.
pub const DISALLOWED_INTENTS_CODE: u16 = 4014;

/// The intents that the bot of a configuration may ask for.
pub open spec fn permitted(config: ConfigView) -> Intents {
    Intents { bits: permitted_intents(config.bot.application_flags.bits) }
}

/// Whether `token` is what a client sends for the bot whose token is
/// `configured`: the word `Bot`, a space, and that token.
pub open spec fn authentic(token: Seq<char>, configured: Seq<char>) -> bool {
    token == "Bot "@ + configured
}

/// Whether a client that identifies with `info` is taken: it asks for no
/// intent the bot may not have, and its token is the bot's.
pub open spec fn is_taken(config: ConfigView, info: IdentifyView) -> bool {
    &&& permitted(config).contains(info.intents)
    &&& authentic(info.token, config.bot.token)
}

/// What the state machine asks of its caller after a frame.
#[derive(Clone, Copy, Debug, PartialEq, Eq, Structural)]
pub enum Outcome {
    /// Nothing: wait for the next frame.
    Idle,
    /// The connection has become ready: start replaying the script on it.
    StartScript,
}

/// Where a connection stands in the protocol.
#[derive(Clone, Copy, Debug, PartialEq, Eq, Structural)]
pub enum Phase {
    AwaitingHelloSend,
    AwaitingIdentifyOrResume,
    Ready,
    Closed,
}

/// The state of a connection.
pub struct StateView {
    /// The write side.
    pub writer: WriterView,
    /// The session the connection is bound to, once it is bound.
    pub session_id: Option<Seq<char>>,
    /// Whether the connection has said hello.
    pub greeted: bool,
}

/// What a step of the state machine leaves behind: the connection, the
/// registry of sessions, and what it answers.
pub struct Step {
    pub state: StateView,
    pub registry: Map<Seq<char>, Session>,
    pub result: Result<Outcome, ErrorView>,
}

/// A frame of the client as the state machine takes it.
pub enum IncomingView {
    /// The socket was accepted; nothing has come in yet.
    Connected,
    /// A frame that decoded.
    Event(EnvelopeView),
    /// A frame that did not decode.
    Undecodable,
}

impl StateView {
    /// The state of a new connection.
    pub open spec fn fresh() -> StateView {
        StateView { writer: WriterView::fresh(), session_id: None, greeted: false }
    }

    /// Where the connection stands in the protocol.
    pub open spec fn phase(self) -> Phase {
        if self.writer.closed {
            Phase::Closed
        } else if !self.greeted {
            Phase::AwaitingHelloSend
        } else if self.session_id is Some {
            Phase::Ready
        } else {
            Phase::AwaitingIdentifyOrResume
        }
    }

    /// The state once `id` was offered as its session. A connection is bound
    /// once: a later session is not taken.
    pub open spec fn bind(self, id: Seq<char>) -> StateView {
        match self.session_id {
            Some(_) => self,
            None => StateView { session_id: Some(id), ..self },
        }
    }

    /// The step in which nothing happens.
    pub open spec fn stay(self, registry: Map<Seq<char>, Session>) -> Step {
        Step { state: self, registry, result: Ok(Outcome::Idle) }
    }

    /// The step that offers one frame to the write side: it fails where the
    /// write side is closed, and else asks for `outcome`.
    pub open spec fn offer(
        self,
        registry: Map<Seq<char>, Session>,
        frame: FrameView,
        outcome: Outcome,
    ) -> Step {
        Step {
            state: StateView { writer: self.writer.enqueue(frame), ..self },
            registry,
            result: if self.writer.closed {
                Err(ErrorView::Sending(frame))
            } else {
                Ok(outcome)
            },
        }
    }

    /// The step that sends one payload: it fails where the write side is
    /// closed, and else asks for `outcome`.
    pub open spec fn tell(
        self,
        registry: Map<Seq<char>, Session>,
        payload: PayloadView,
        outcome: Outcome,
    ) -> Step {
        Step {
            state: StateView { writer: self.writer.send_data(payload), ..self },
            registry,
            result: if self.writer.closed {
                Err(ErrorView::Sending(self.writer.framed(payload)))
            } else {
                Ok(outcome)
            },
        }
    }

    /// The step that invalidates the connection's session. Where the
    /// connection is bound, the session leaves the registry, the client is
    /// told so, and the socket is closed as fulfilled; else nothing happens.
    pub open spec fn invalidate(self, registry: Map<Seq<char>, Session>, resumable: bool) -> Step {
        match self.session_id {
            Some(id) => {
                let told = self.tell(
                    registry.remove(id),
                    PayloadView::InvalidSession(resumable),
                    Outcome::Idle,
                );
                if told.result is Err {
                    told
                } else {
                    told.state.offer(
                        told.registry,
                        FrameView::close(CloseCode::Normal, ""@),
                        Outcome::Idle,
                    )
                }
            },
            None => self.stay(registry),
        }
    }

    /// The step that answers a client that identifies. Intents the bot may
    /// not have close the socket; then a token that is not the bot's does.
    /// Else a session is made under `fresh_id`, the connection is bound to
    /// it unless it is bound, and the client is told it is ready.
    pub open spec fn identify(
        self,
        registry: Map<Seq<char>, Session>,
        config: ConfigView,
        info: IdentifyView,
        fresh_id: Seq<char>,
    ) -> Step {
        if !permitted(config).contains(info.intents) {
            self.offer(
                registry,
                FrameView::close(
                    CloseCode::Library(DISALLOWED_INTENTS_CODE),
                    DISALLOWED_INTENTS_ERROR_MSG@,
                ),
                Outcome::Idle,
            )
        } else if !authentic(info.token, config.bot.token) {
            self.offer(
                registry,
                FrameView::close(
                    CloseCode::Library(AUTHENTICATION_FAILED_CODE),
                    AUTHENTICATION_FAILED_ERROR_MSG@,
                ),
                Outcome::Idle,
            )
        } else {
            self.bind(fresh_id).tell(
                registry.insert(fresh_id, Session::of(info)),
                PayloadView::ready(config, fresh_id, info.shard),
                Outcome::StartScript,
            )
        }
    }

    /// The step that answers a client that resumes. A token that is not the
    /// bot's closes the socket. Else, where the session is in the registry
    /// and sessions do not expire, the connection is bound to it unless it
    /// is bound, and the client is told it has resumed; where not, the
    /// connection's session is invalidated.
    pub open spec fn resume(
        self,
        registry: Map<Seq<char>, Session>,
        config: ConfigView,
        info: ResumeView,
    ) -> Step {
        if !authentic(info.token, config.bot.token) {
            self.offer(
                registry,
                FrameView::close(
                    CloseCode::Library(AUTHENTICATION_FAILED_CODE),
                    AUTHENTICATION_FAILED_ERROR_MSG@,
                ),
                Outcome::Idle,
            )
        } else if registry.dom().contains(info.session_id) && !config.scenarios.expired_sessions {
            self.bind(info.session_id).tell(registry, PayloadView::Resumed, Outcome::StartScript)
        } else {
            self.invalidate(registry, false)
        }
    }

    /// The step that answers a frame of the client, by its operation. A
    /// session made in the step goes under `fresh_id`.
    pub open spec fn process(
        self,
        registry: Map<Seq<char>, Session>,
        config: ConfigView,
        event: EnvelopeView,
        fresh_id: Seq<char>,
    ) -> Step {
        match event.op {
            OpCode::Identify => match event.d {
                Some(PayloadView::Identify(info)) => self.identify(
                    registry,
                    config,
                    info,
                    fresh_id,
                ),
                _ => self.invalidate(registry, false),
            },
            OpCode::Resume => match event.d {
                Some(PayloadView::Resume(info)) => self.resume(registry, config, info),
                _ => self.invalidate(registry, false),
            },
            OpCode::Heartbeat => if config.scenarios.unanswered_heartbeats {
                self.stay(registry)
            } else {
                self.offer(registry, FrameView::Event(EnvelopeView::heartbeat_ack()), Outcome::Idle)
            },
            _ => self.stay(registry),
        }
    }

    /// The step that says hello, where the connection has not yet.
    pub open spec fn greet(self, registry: Map<Seq<char>, Session>) -> Step {
        if self.greeted {
            self.stay(registry)
        } else {
            StateView { greeted: !self.writer.closed, ..self }.tell(
                registry,
                PayloadView::hello(),
                Outcome::Idle,
            )
        }
    }

    /// The step that takes what came in from the client: hello first, where
    /// it is still owed; then a frame that decoded is answered by its
    /// operation, and one that did not closes the socket.
    pub open spec fn handle(
        self,
        registry: Map<Seq<char>, Session>,
        config: ConfigView,
        incoming: IncomingView,
        fresh_id: Seq<char>,
    ) -> Step {
        let greeted = self.greet(registry);
        if greeted.result is Err {
            greeted
        } else {
            match incoming {
                IncomingView::Connected => greeted,
                IncomingView::Event(event) => greeted.state.process(
                    registry,
                    config,
                    event,
                    fresh_id,
                ),
                IncomingView::Undecodable => greeted.state.offer(
                    registry,
                    FrameView::close(
                        CloseCode::Library(DECODE_ERROR_CODE),
                        PAYLOAD_DECODE_ERROR_MSG@,
                    ),
                    Outcome::Idle,
                ),
            }
        }
    }
}

} // verus!
