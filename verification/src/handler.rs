//! One connection of the gateway: the frames it exchanges, the write side
//! that numbers and queues what goes out, and the state machine that answers
//! what comes in.

use crate::config::Config;
use crate::frame::{CloseCode, CloseFrame, Message};
use crate::order::{
    lemma_fresh_in_order, lemma_handle_extends, lemma_handle_in_order, lemma_process_extends,
    lemma_process_in_order, lemma_send_data_in_order,
};
use crate::payload::{
    CurrentUser, Hello, IdentifyInfo, OpCode, PartialApplication, Ready, ResumeInfo, ShardId,
    HEARTBEAT_INTERVAL, READY_VERSION,
};
use crate::protocol::{
    authentic, EnvelopeView, ErrorView, FrameView, IncomingView, Outcome, PayloadView, Phase,
    StateView, Step, WriterView, AUTHENTICATION_FAILED_CODE, AUTHENTICATION_FAILED_ERROR_MSG,
    DECODE_ERROR_CODE, DISALLOWED_INTENTS_CODE, DISALLOWED_INTENTS_ERROR_MSG,
    PAYLOAD_DECODE_ERROR_MSG,
};
use crate::session::{is_session_id, lemma_session_id_exists, Session, Sessions};
use vstd::prelude::*;

verus! {

/// Why a payload could not be taken for what a frame's operation asks.
#[derive(Clone, Copy, Debug, PartialEq, Eq, Structural)]
pub enum PayloadError {
    InvalidData,
}

/// What a gateway frame carries as its data.
#[derive(Debug)]
pub enum GatewayEventData {
    Hello(Hello),
    Identify(IdentifyInfo),
    Resume(ResumeInfo),
    InvalidSession(bool),
    Ready(Ready),
    Heartbeat(u64),
    /// An event of any name, with its data as JSON text.
    RawDispatch { event_type: String, data: String },
    Resumed,
}

impl DeepView for GatewayEventData {
    type V = PayloadView;

    open spec fn deep_view(&self) -> PayloadView {
        match self {
            GatewayEventData::Hello(hello) => PayloadView::Hello(*hello),
            GatewayEventData::Identify(identify) => PayloadView::Identify(identify@),
            GatewayEventData::Resume(resume) => PayloadView::Resume(resume@),
            GatewayEventData::InvalidSession(resumable) => PayloadView::InvalidSession(*resumable),
            GatewayEventData::Ready(ready) => PayloadView::Ready(ready@),
            GatewayEventData::Heartbeat(sequence) => PayloadView::Heartbeat(*sequence),
            GatewayEventData::RawDispatch { event_type, data } => PayloadView::RawDispatch {
                event_type: event_type@,
                data: data@,
            },
            GatewayEventData::Resumed => PayloadView::Resumed,
        }
    }
}

impl View for GatewayEventData {
    type V = PayloadView;

    open spec fn view(&self) -> PayloadView {
        self.deep_view()
    }
}

impl GatewayEventData {
    /// The payload that opens a connection.
    pub fn hello() -> (payload: GatewayEventData)
        ensures
            payload@ == PayloadView::hello(),
    {
        GatewayEventData::Hello(Hello { heartbeat_interval: HEARTBEAT_INTERVAL })
    }

    /// The payload that tells a client it has identified as the
    /// configuration's bot, under the given session.
    pub fn ready(session_id: String, shard: Option<ShardId>, config: &Config) -> (payload:
        GatewayEventData)
        ensures
            payload@ == PayloadView::ready(config@, session_id@, shard),
    {
        GatewayEventData::Ready(
            Ready {
                application: PartialApplication::from(&config.bot),
                guilds: Vec::new(),
                resume_gateway_url: config.externally_accessible_url.clone(),
                session_id,
                shard,
                user: CurrentUser::from(&config.bot),
                version: READY_VERSION,
            },
        )
    }

    /// The payload of an event of any name.
    pub fn raw_dispatch(event_type: String, data: String) -> (payload: GatewayEventData)
        ensures
            payload == (GatewayEventData::RawDispatch { event_type, data }),
    {
        GatewayEventData::RawDispatch { event_type, data }
    }

    /// What the client stated to identify, where the payload is that.
    pub fn into_identify(self) -> (identify: Result<IdentifyInfo, PayloadError>)
        ensures
            identify == match self {
                GatewayEventData::Identify(info) => Ok::<IdentifyInfo, PayloadError>(info),
                _ => Err(PayloadError::InvalidData),
            },
    {
        match self {
            GatewayEventData::Identify(info) => Ok(info),
            _ => Err(PayloadError::InvalidData),
        }
    }

    /// What the client stated to resume, where the payload is that.
    pub fn into_resume(self) -> (resume: Result<ResumeInfo, PayloadError>)
        ensures
            resume == match self {
                GatewayEventData::Resume(info) => Ok::<ResumeInfo, PayloadError>(info),
                _ => Err(PayloadError::InvalidData),
            },
    {
        match self {
            GatewayEventData::Resume(info) => Ok(info),
            _ => Err(PayloadError::InvalidData),
        }
    }

    /// The name of the event that the payload is dispatched as, where it is
    /// dispatched.
    pub fn dispatch_event_name(&self) -> (name: Option<&str>)
        ensures
            name.deep_view() == self@.dispatch_event_name(),
    {
        match self {
            GatewayEventData::Ready(_) => Some("READY"),
            GatewayEventData::Resumed => Some("RESUMED"),
            GatewayEventData::RawDispatch { event_type, .. } => Some(event_type.as_str()),
            _ => None,
        }
    }
}

/// A gateway frame: the operation, the data, and for a dispatch its sequence
/// number and the name of its event.
#[derive(Debug)]
pub struct GatewayEvent {
    pub t: Option<String>,
    pub s: Option<u64>,
    pub op: OpCode,
    pub d: Option<GatewayEventData>,
}

impl DeepView for GatewayEvent {
    type V = EnvelopeView;

    open spec fn deep_view(&self) -> EnvelopeView {
        EnvelopeView { t: self.t.deep_view(), s: self.s, op: self.op, d: self.d.deep_view() }
    }
}

impl View for GatewayEvent {
    type V = EnvelopeView;

    open spec fn view(&self) -> EnvelopeView {
        self.deep_view()
    }
}

impl GatewayEvent {
    /// What the client stated to identify, where the frame carries that.
    pub fn into_identify(self) -> (identify: Result<IdentifyInfo, PayloadError>)
        ensures
            identify == match self.d {
                Some(GatewayEventData::Identify(info)) => Ok::<IdentifyInfo, PayloadError>(info),
                _ => Err(PayloadError::InvalidData),
            },
    {
        match self.d {
            Some(data) => data.into_identify(),
            None => Err(PayloadError::InvalidData),
        }
    }

    /// What the client stated to resume, where the frame carries that.
    pub fn into_resume(self) -> (resume: Result<ResumeInfo, PayloadError>)
        ensures
            resume == match self.d {
                Some(GatewayEventData::Resume(info)) => Ok::<ResumeInfo, PayloadError>(info),
                _ => Err(PayloadError::InvalidData),
            },
    {
        match self.d {
            Some(data) => data.into_resume(),
            None => Err(PayloadError::InvalidData),
        }
    }

    /// The frame that acknowledges a client's heartbeat.
    pub fn heartbeat_ack() -> (event: GatewayEvent)
        ensures
            event@ == EnvelopeView::heartbeat_ack(),
    {
        GatewayEvent { t: None, s: None, op: OpCode::HeartbeatAck, d: None }
    }

    /// The frame by which the gateway asks a client for a heartbeat.
    pub fn heartbeat() -> (event: GatewayEvent)
        ensures
            event@ == EnvelopeView::heartbeat(),
    {
        GatewayEvent { t: None, s: None, op: OpCode::Heartbeat, d: None }
    }
}

impl From<(u64, GatewayEventData)> for GatewayEvent {
    /// The frame that carries a payload. A dispatch takes the number given;
    /// any other frame has neither number nor name.
    fn from(numbered: (u64, GatewayEventData)) -> (event: GatewayEvent)
        ensures
            event@ == numbered.1@.envelope(numbered.0),
    {
        let (sequence, payload) = numbered;
        let name = match payload.dispatch_event_name() {
            Some(name) => Some(name.to_owned()),
            None => None,
        };
        match name {
            Some(name) => GatewayEvent {
                t: Some(name),
                s: Some(sequence),
                op: OpCode::Dispatch,
                d: Some(payload),
            },
            None => {
                let op = match &payload {
                    GatewayEventData::Hello(_) => OpCode::Hello,
                    GatewayEventData::Heartbeat(_) => OpCode::Heartbeat,
                    GatewayEventData::Identify(_) => OpCode::Identify,
                    GatewayEventData::Resume(_) => OpCode::Resume,
                    GatewayEventData::InvalidSession(_) => OpCode::InvalidSession,
                    _ => OpCode::Dispatch,
                };
                GatewayEvent { t: None, s: None, op, d: Some(payload) }
            },
        }
    }
}

impl vstd::std_specs::convert::FromSpecImpl<(u64, GatewayEventData)> for GatewayEvent {
    /// The name of a dispatch is a text that `from` makes, so the frame is
    /// stated by its view, in the contract of `from`.
    open spec fn obeys_from_spec() -> bool {
        false
    }

    open spec fn from_spec(numbered: (u64, GatewayEventData)) -> GatewayEvent {
        GatewayEvent { t: None, s: None, op: numbered.1@.op(), d: Some(numbered.1) }
    }
}

/// What a connection's write side carries: a gateway frame, or a message of
/// the socket as it stands.
#[derive(Debug)]
pub enum Frame {
    Event(GatewayEvent),
    Raw(Message),
}

impl DeepView for Frame {
    type V = FrameView;

    open spec fn deep_view(&self) -> FrameView {
        match self {
            Frame::Event(event) => FrameView::Event(event@),
            Frame::Raw(message) => FrameView::Raw(message@),
        }
    }
}

impl View for Frame {
    type V = FrameView;

    open spec fn view(&self) -> FrameView {
        self.deep_view()
    }
}

/// Why a connection cannot go on.
#[derive(Debug)]
pub enum Error {
    /// The socket failed.
    Websocket(String),
    /// The write side takes no more frames; this one was refused.
    Sending(Frame),
}

impl DeepView for Error {
    type V = ErrorView;

    open spec fn deep_view(&self) -> ErrorView {
        match self {
            Error::Websocket(text) => ErrorView::Websocket(text@),
            Error::Sending(frame) => ErrorView::Sending(frame@),
        }
    }
}

impl View for Error {
    type V = ErrorView;

    open spec fn view(&self) -> ErrorView {
        self.deep_view()
    }
}

/// The write side of a connection. Every frame that leaves the connection
/// goes through it, in the order in which it was taken; it numbers the
/// dispatches. Once it has taken the frame that closes the socket, or was
/// shut down, it takes no more frames and hands back each one offered.
pub struct WriteHandle {
    sequence: u64,
    queue: Vec<Frame>,
    closed: bool,
    sent: Ghost<Seq<FrameView>>,
}

impl View for WriteHandle {
    type V = WriterView;

    closed spec fn view(&self) -> WriterView {
        WriterView {
            sequence: self.sequence,
            closed: self.closed,
            pending: self.queue.deep_view(),
            sent: self.sent@,
        }
    }
}

/// What a write side answers when a frame is offered to it: it takes the
/// frame unless it is closed, and then hands the frame back.
pub open spec fn answered(result: Result<(), Error>, writer: WriterView, frame: FrameView) -> bool {
    match result {
        Ok(_) => !writer.closed,
        Err(error) => writer.closed && error@ == ErrorView::Sending(frame),
    }
}

impl WriteHandle {
    /// The write side of a new connection: nothing taken, open, in order,
    /// and the first dispatch to be numbered 1.
    pub fn new() -> (writer: WriteHandle)
        ensures
            writer@ == WriterView::fresh(),
            writer@.consistent(),
    {
        let writer = WriteHandle {
            sequence: 1,
            queue: Vec::new(),
            closed: false,
            sent: Ghost(Seq::empty()),
        };
        assert(writer.queue.deep_view() =~= Seq::<FrameView>::empty());
        writer
    }

    /// The number that the next dispatch takes.
    pub fn sequence(&self) -> (sequence: u64)
        ensures
            sequence == self@.sequence,
    {
        self.sequence
    }

    /// Whether the write side takes no more frames.
    pub fn is_closed(&self) -> (closed: bool)
        ensures
            closed == self@.closed,
    {
        self.closed
    }

    /// Offers a frame to the write side.
    fn enqueue(&mut self, frame: Frame) -> (result: Result<(), Error>)
        ensures
            final(self)@ == old(self)@.enqueue(frame@),
            answered(result, old(self)@, frame@),
    {
        if self.closed {
            return Err(Error::Sending(frame));
        }
        let closing = match &frame {
            Frame::Raw(message) => message.is_close(),
            Frame::Event(_) => false,
        };
        self.sent = Ghost(self.sent@.push(frame@));
        self.queue.push(frame);
        self.closed = closing;
        assert(self.queue.deep_view() =~= old(self).queue.deep_view().push(frame@));
        Ok(())
    }

    /// Offers a gateway frame to the write side.
    pub fn send(&mut self, event: GatewayEvent) -> (result: Result<(), Error>)
        ensures
            final(self)@ == old(self)@.enqueue(FrameView::Event(event@)),
            answered(result, old(self)@, FrameView::Event(event@)),
    {
        self.enqueue(Frame::Event(event))
    }

    /// Puts a payload in its frame and offers the frame to the write side.
    /// A dispatch takes the next sequence number. A write side in order
    /// with room for one more dispatch stays in order.
    pub fn send_data(&mut self, event: GatewayEventData) -> (result: Result<(), Error>)
        ensures
            final(self)@ == old(self)@.send_data(event@),
            answered(result, old(self)@, old(self)@.framed(event@)),
            old(self)@.consistent() && old(self)@.has_room(1) ==> final(self)@.consistent(),
    {
        proof {
            if self@.consistent() && self@.has_room(1) {
                lemma_send_data_in_order(self@, event@, 0);
            }
        }
        let sequence: u64 = self.sequence;
        if event.dispatch_event_name().is_some() {
            self.sequence = self.sequence.wrapping_add(1);
        }
        let event = GatewayEvent::from((sequence, event));
        self.send(event)
    }

    /// Offers a message of the socket to the write side as it stands.
    pub fn send_raw(&mut self, msg: Message) -> (result: Result<(), Error>)
        ensures
            final(self)@ == old(self)@.enqueue(FrameView::Raw(msg@)),
            answered(result, old(self)@, FrameView::Raw(msg@)),
    {
        self.enqueue(Frame::Raw(msg))
    }

    /// Offers the frame that closes the socket with a code and a reason.
    pub fn close(&mut self, close_code: CloseCode, reason: &'static str) -> (result: Result<
        (),
        Error,
    >)
        ensures
            final(self)@ == old(self)@.enqueue(FrameView::close(close_code, reason@)),
            answered(result, old(self)@, FrameView::close(close_code, reason@)),
    {
        self.send_raw(
            Message::Close(Some(CloseFrame { code: close_code, reason: reason.to_owned() })),
        )
    }

    /// Hands out the frames taken since the last call, oldest first, for
    /// the socket.
    pub fn drain(&mut self) -> (frames: Vec<Frame>)
        ensures
            frames.deep_view() == old(self)@.pending,
            final(self)@ == old(self)@.drained(),
    {
        let mut frames: Vec<Frame> = Vec::new();
        core::mem::swap(&mut self.queue, &mut frames);
        assert(self.queue.deep_view() =~= Seq::<FrameView>::empty());
        frames
    }

    /// Closes the write side: the socket has stopped taking frames.
    pub fn shutdown(&mut self)
        ensures
            final(self)@ == old(self)@.shut(),
    {
        self.closed = true;
    }
}

/// Whether `token` is what a client sends for the bot whose token is
/// `configured`.
pub fn is_authentic(token: &String, configured: &String) -> (genuine: bool)
    ensures
        genuine == authentic(token@, configured@),
{
    let mut expected = "Bot ".to_owned();
    expected.append(configured.as_str());
    *token == expected
}

/// Whether what a function left behind and answered is what `step` says.
pub open spec fn took(
    step: Step,
    state: StateView,
    registry: Map<Seq<char>, Session>,
    result: Result<Outcome, Error>,
) -> bool {
    &&& step.state == state
    &&& step.registry == registry
    &&& match result {
        Ok(outcome) => step.result == Ok::<Outcome, ErrorView>(outcome),
        Err(error) => step.result == Err::<Outcome, ErrorView>(error@),
    }
}

/// Whether what a function left behind and answered is what `step` says,
/// for a function that asks nothing of its caller.
pub open spec fn settled(
    step: Step,
    state: StateView,
    registry: Map<Seq<char>, Session>,
    result: Result<(), Error>,
) -> bool {
    &&& step.state == state
    &&& step.registry == registry
    &&& match result {
        Ok(_) => step.result == Ok::<Outcome, ErrorView>(Outcome::Idle),
        Err(error) => step.result == Err::<Outcome, ErrorView>(error@),
    }
}

/// The state of one connection: its write side, the session it is bound to,
/// and whether it has said hello.
pub struct ConnectionState {
    pub writer: WriteHandle,
    session_id: Option<String>,
    greeted: bool,
}

impl View for ConnectionState {
    type V = StateView;

    closed spec fn view(&self) -> StateView {
        StateView {
            writer: self.writer@,
            session_id: self.session_id.deep_view(),
            greeted: self.greeted,
        }
    }
}

impl ConnectionState {
    /// The state of a new connection.
    pub fn new() -> (state: ConnectionState)
        ensures
            state@ == StateView::fresh(),
    {
        ConnectionState { writer: WriteHandle::new(), session_id: None, greeted: false }
    }

    /// The write side of the connection, to offer frames to or to drain.
    pub fn writer_mut(&mut self) -> (writer: &mut WriteHandle)
        ensures
            writer@ == old(self)@.writer,
            final(self)@ == (StateView { writer: final(writer)@, ..old(self)@ }),
    {
        &mut self.writer
    }

    /// The identifier of the session the connection is bound to, once it is
    /// bound.
    pub fn session_id(&self) -> (id: Option<&String>)
        ensures
            id.deep_view() == self@.session_id,
    {
        self.session_id.as_ref()
    }

    /// Where the connection stands in the protocol.
    pub fn phase(&self) -> (phase: Phase)
        ensures
            phase == self@.phase(),
    {
        if self.writer.is_closed() {
            Phase::Closed
        } else if !self.greeted {
            Phase::AwaitingHelloSend
        } else if self.session_id.is_some() {
            Phase::Ready
        } else {
            Phase::AwaitingIdentifyOrResume
        }
    }

    /// A copy of the session the connection is bound to, where it is bound
    /// and the session is in the registry.
    pub fn session(&self, sessions: &Sessions) -> (session: Option<Session>)
        ensures
            session == match self@.session_id {
                Some(id) if sessions@.dom().contains(id) => Some(sessions@[id]),
                _ => None,
            },
    {
        match &self.session_id {
            Some(id) => sessions.get_session(id),
            None => None,
        }
    }

    /// Offers a session for the connection to be bound to. A connection is
    /// bound once: where it is bound already, nothing changes.
    pub fn set_session_id(&mut self, session_id: String)
        ensures
            final(self)@ == old(self)@.bind(session_id@),
    {
        if self.session_id.is_none() {
            self.session_id = Some(session_id);
        }
    }

    /// Invalidates the connection's session. Where the connection is bound,
    /// the session leaves the registry, the client is told so, and the
    /// socket is closed as fulfilled; else nothing happens.
    pub fn invalidate_session(&mut self, sessions: &mut Sessions, resumable: bool) -> (result:
        Result<(), Error>)
        ensures
            settled(
                old(self)@.invalidate(old(sessions)@, resumable),
                final(self)@,
                final(sessions)@,
                result,
            ),
    {
        match &self.session_id {
            Some(session_id) => {
                sessions.destroy_session(session_id);
                match self.writer.send_data(GatewayEventData::InvalidSession(resumable)) {
                    Ok(_) => {},
                    Err(error) => {
                        return Err(error);
                    },
                }
                self.writer.close(CloseCode::Normal, "")
            },
            None => Ok(()),
        }
    }

    /// Makes the session of a client that identified, binds the connection
    /// to it unless it is bound, and tells the client it is ready.
    fn welcome(&mut self, sessions: &mut Sessions, config: &Config, data: IdentifyInfo) -> (result:
        Result<Outcome, Error>)
        ensures
            exists|id: Seq<char>|
                #![trigger is_session_id(id)]
                {
                    &&& is_session_id(id)
                    &&& took(
                        old(self)@.bind(id).tell(
                            old(sessions)@.insert(id, Session::of(data@)),
                            PayloadView::ready(config@, id, data.shard),
                            Outcome::StartScript,
                        ),
                        final(self)@,
                        final(sessions)@,
                        result,
                    )
                },
    {
        let session_id = sessions.create_session(&data);
        self.set_session_id(session_id.clone());
        let ghost id = session_id@;
        let result = match self.writer.send_data(
            GatewayEventData::ready(session_id, data.shard, config),
        ) {
            Ok(_) => Ok(Outcome::StartScript),
            Err(error) => Err(error),
        };
        assert(is_session_id(id));
        result
    }

    /// Answers a frame of the client, by its operation. What the write side
    /// took before is still there, and a write side in order with room for
    /// one more dispatch stays in order.
    pub fn process(&mut self, sessions: &mut Sessions, config: &Config, event: GatewayEvent) -> (result:
        Result<Outcome, Error>)
        ensures
            exists|id: Seq<char>|
                #![trigger is_session_id(id)]
                {
                    &&& is_session_id(id)
                    &&& took(
                        old(self)@.process(old(sessions)@, config@, event@, id),
                        final(self)@,
                        final(sessions)@,
                        result,
                    )
                },
            old(self)@.writer.precedes(final(self)@.writer),
            old(self)@.writer.consistent() && old(self)@.writer.has_room(1)
                ==> final(self)@.writer.consistent(),
    {
        let ghost frame = event@;
        let result = self.answer(sessions, config, event);
        proof {
            let id = choose|id: Seq<char>|
                #![trigger is_session_id(id)]
                is_session_id(id) && took(
                    old(self)@.process(old(sessions)@, config@, frame, id),
                    self@,
                    sessions@,
                    result,
                );
            lemma_process_extends(old(self)@, old(sessions)@, config@, frame, id);
            if old(self)@.writer.consistent() && old(self)@.writer.has_room(1) {
                lemma_process_in_order(old(self)@, old(sessions)@, config@, frame, id, 0);
            }
        }
        result
    }

    /// Answers a frame of the client, by its operation.
    fn answer(&mut self, sessions: &mut Sessions, config: &Config, event: GatewayEvent) -> (result:
        Result<Outcome, Error>)
        ensures
            exists|id: Seq<char>|
                #![trigger is_session_id(id)]
                {
                    &&& is_session_id(id)
                    &&& took(
                        old(self)@.process(old(sessions)@, config@, event@, id),
                        final(self)@,
                        final(sessions)@,
                        result,
                    )
                },
    {
        let ghost any = lemma_session_id_exists();
        match event.op {
            OpCode::Identify => {
                match event.into_identify() {
                    Ok(data) => {
                        let allowed = config.bot.allowed_intents();
                        if !allowed.contains(data.intents) {
                            let closed = self.writer.close(
                                CloseCode::Library(DISALLOWED_INTENTS_CODE),
                                DISALLOWED_INTENTS_ERROR_MSG,
                            );
                            assert(is_session_id(any));
                            return match closed {
                                Ok(_) => Ok(Outcome::Idle),
                                Err(error) => Err(error),
                            };
                        }
                        if !is_authentic(&data.token, &config.bot.token) {
                            let closed = self.writer.close(
                                CloseCode::Library(AUTHENTICATION_FAILED_CODE),
                                AUTHENTICATION_FAILED_ERROR_MSG,
                            );
                            assert(is_session_id(any));
                            return match closed {
                                Ok(_) => Ok(Outcome::Idle),
                                Err(error) => Err(error),
                            };
                        }
                        self.welcome(sessions, config, data)
                    },
                    Err(_) => {
                        let invalidated = self.invalidate_session(sessions, false);
                        assert(is_session_id(any));
                        match invalidated {
                            Ok(_) => Ok(Outcome::Idle),
                            Err(error) => Err(error),
                        }
                    },
                }
            },
            OpCode::Resume => {
                match event.into_resume() {
                    Ok(data) => {
                        if !is_authentic(&data.token, &config.bot.token) {
                            let closed = self.writer.close(
                                CloseCode::Library(AUTHENTICATION_FAILED_CODE),
                                AUTHENTICATION_FAILED_ERROR_MSG,
                            );
                            assert(is_session_id(any));
                            return match closed {
                                Ok(_) => Ok(Outcome::Idle),
                                Err(error) => Err(error),
                            };
                        }
                        if sessions.contains(&data.session_id)
                            && !config.scenarios.expired_sessions {
                            self.set_session_id(data.session_id);
                            let told = self.writer.send_data(GatewayEventData::Resumed);
                            assert(is_session_id(any));
                            match told {
                                Ok(_) => Ok(Outcome::StartScript),
                                Err(error) => Err(error),
                            }
                        } else {
                            let invalidated = self.invalidate_session(sessions, false);
                            assert(is_session_id(any));
                            match invalidated {
                                Ok(_) => Ok(Outcome::Idle),
                                Err(error) => Err(error),
                            }
                        }
                    },
                    Err(_) => {
                        let invalidated = self.invalidate_session(sessions, false);
                        assert(is_session_id(any));
                        match invalidated {
                            Ok(_) => Ok(Outcome::Idle),
                            Err(error) => Err(error),
                        }
                    },
                }
            },
            OpCode::Heartbeat => {
                assert(is_session_id(any));
                if !config.scenarios.unanswered_heartbeats {
                    // The sequence number a client sends with its heartbeat is not looked at.
                    match self.writer.send(GatewayEvent::heartbeat_ack()) {
                        Ok(_) => Ok(Outcome::Idle),
                        Err(error) => Err(error),
                    }
                } else {
                    Ok(Outcome::Idle)
                }
            },
            _ => {
                assert(is_session_id(any));
                Ok(Outcome::Idle)
            },
        }
    }

    /// Says hello, where the connection has not yet.
    fn greet(&mut self) -> (result: Result<(), Error>)
        ensures
            forall|registry: Map<Seq<char>, Session>|
                settled(#[trigger] old(self)@.greet(registry), final(self)@, registry, result),
    {
        if self.greeted {
            return Ok(());
        }
        match self.writer.send_data(GatewayEventData::hello()) {
            Ok(_) => {
                self.greeted = true;
                Ok(())
            },
            Err(error) => Err(error),
        }
    }
}

/// What came in from the client, as the state machine takes it.
#[derive(Debug)]
pub enum Incoming {
    /// The socket was accepted; nothing has come in yet.
    Connected,
    /// A text or binary frame that decoded.
    Event(GatewayEvent),
    /// A text or binary frame that did not decode.
    Undecodable,
}

impl DeepView for Incoming {
    type V = IncomingView;

    open spec fn deep_view(&self) -> IncomingView {
        match self {
            Incoming::Connected => IncomingView::Connected,
            Incoming::Event(event) => IncomingView::Event(event@),
            Incoming::Undecodable => IncomingView::Undecodable,
        }
    }
}

impl View for Incoming {
    type V = IncomingView;

    open spec fn view(&self) -> IncomingView {
        self.deep_view()
    }
}

/// A connection of a client.
pub struct Connection {
    state: ConnectionState,
}

impl View for Connection {
    type V = StateView;

    closed spec fn view(&self) -> StateView {
        self.state@
    }
}

impl Connection {
    /// A new connection: nothing sent, no session, and its write side in
    /// order.
    pub fn new() -> (connection: Connection)
        ensures
            connection@ == StateView::fresh(),
            connection@.writer.consistent(),
    {
        proof {
            lemma_fresh_in_order();
        }
        Connection { state: ConnectionState::new() }
    }

    /// The state of the connection.
    pub fn state(&self) -> (state: &ConnectionState)
        ensures
            state@ == self@,
    {
        &self.state
    }

    /// The state of the connection, for the script to act on.
    pub fn state_mut(&mut self) -> (state: &mut ConnectionState)
        ensures
            state@ == old(self)@,
            final(self)@ == final(state)@,
    {
        &mut self.state
    }

    /// Offers a gateway frame to the connection's write side.
    pub fn send(&mut self, event: GatewayEvent) -> (result: Result<(), Error>)
        ensures
            final(self)@ == (StateView {
                writer: old(self)@.writer.enqueue(FrameView::Event(event@)),
                ..old(self)@
            }),
            answered(result, old(self)@.writer, FrameView::Event(event@)),
    {
        self.state.writer.send(event)
    }

    /// Puts a payload in its frame and offers the frame to the connection's
    /// write side.
    pub fn send_data(&mut self, event: GatewayEventData) -> (result: Result<(), Error>)
        ensures
            final(self)@ == (StateView {
                writer: old(self)@.writer.send_data(event@),
                ..old(self)@
            }),
            answered(result, old(self)@.writer, old(self)@.writer.framed(event@)),
    {
        self.state.writer.send_data(event)
    }

    /// Offers a message of the socket to the connection's write side.
    pub fn send_raw(&mut self, msg: Message) -> (result: Result<(), Error>)
        ensures
            final(self)@ == (StateView {
                writer: old(self)@.writer.enqueue(FrameView::Raw(msg@)),
                ..old(self)@
            }),
            answered(result, old(self)@.writer, FrameView::Raw(msg@)),
    {
        self.state.writer.send_raw(msg)
    }

    /// Offers the frame that closes the socket with a code and a reason.
    pub fn close(&mut self, close_code: CloseCode, reason: &'static str) -> (result: Result<
        (),
        Error,
    >)
        ensures
            final(self)@ == (StateView {
                writer: old(self)@.writer.enqueue(FrameView::close(close_code, reason@)),
                ..old(self)@
            }),
            answered(result, old(self)@.writer, FrameView::close(close_code, reason@)),
    {
        self.state.writer.close(close_code, reason)
    }

    /// Takes what came in from the client: says hello first, where that is
    /// still owed; then answers a frame that decoded by its operation, and
    /// closes the socket on one that did not. What the write side took
    /// before is still there, and a write side in order with room for one
    /// more dispatch stays in order.
    pub fn handle(&mut self, sessions: &mut Sessions, config: &Config, incoming: Incoming) -> (result:
        Result<Outcome, Error>)
        ensures
            exists|id: Seq<char>|
                #![trigger is_session_id(id)]
                {
                    &&& is_session_id(id)
                    &&& took(
                        old(self)@.handle(old(sessions)@, config@, incoming@, id),
                        final(self)@,
                        final(sessions)@,
                        result,
                    )
                },
            old(self)@.writer.precedes(final(self)@.writer),
            old(self)@.writer.consistent() && old(self)@.writer.has_room(1)
                ==> final(self)@.writer.consistent(),
    {
        let ghost came = incoming@;
        let result = self.take(sessions, config, incoming);
        proof {
            let id = choose|id: Seq<char>|
                #![trigger is_session_id(id)]
                is_session_id(id) && took(
                    old(self)@.handle(old(sessions)@, config@, came, id),
                    self@,
                    sessions@,
                    result,
                );
            lemma_handle_extends(old(self)@, old(sessions)@, config@, came, id);
            if old(self)@.writer.consistent() && old(self)@.writer.has_room(1) {
                lemma_handle_in_order(old(self)@, old(sessions)@, config@, came, id, 0);
            }
        }
        result
    }

    /// Takes what came in from the client.
    fn take(&mut self, sessions: &mut Sessions, config: &Config, incoming: Incoming) -> (result:
        Result<Outcome, Error>)
        ensures
            exists|id: Seq<char>|
                #![trigger is_session_id(id)]
                {
                    &&& is_session_id(id)
                    &&& took(
                        old(self)@.handle(old(sessions)@, config@, incoming@, id),
                        final(self)@,
                        final(sessions)@,
                        result,
                    )
                },
    {
        let ghost any = lemma_session_id_exists();
        let ghost registry = sessions@;
        match self.state.greet() {
            Ok(_) => {},
            Err(error) => {
                assert(settled(old(self)@.greet(registry), self@, registry, Err(error)));
                assert(is_session_id(any));
                return Err(error);
            },
        }
        assert(settled(old(self)@.greet(registry), self@, registry, Ok(())));
        match incoming {
            Incoming::Connected => {
                assert(is_session_id(any));
                Ok(Outcome::Idle)
            },
            Incoming::Event(event) => self.state.answer(sessions, config, event),
            Incoming::Undecodable => {
                let closed = self.state.writer.close(
                    CloseCode::Library(DECODE_ERROR_CODE),
                    PAYLOAD_DECODE_ERROR_MSG,
                );
                assert(is_session_id(any));
                match closed {
                    Ok(_) => Ok(Outcome::Idle),
                    Err(error) => Err(error),
                }
            },
        }
    }
}

} // verus!
