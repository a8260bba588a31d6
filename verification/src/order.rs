//! Laws of a connection: the first frame it sends says hello, its gateway
//! frames are well formed, its dispatches are numbered one after the other,
//! and it is bound to a session once.

use crate::config::ConfigView;
use crate::frame::CloseCode;
use crate::payload::{Hello, IdentifyView, OpCode, ShardId};
use crate::protocol::{
    is_taken, EnvelopeView, ErrorView, FrameView, IncomingView, Outcome, PayloadView, StateView,
    WriterView, AUTHENTICATION_FAILED_CODE, AUTHENTICATION_FAILED_ERROR_MSG, DECODE_ERROR_CODE,
    DISALLOWED_INTENTS_CODE, DISALLOWED_INTENTS_ERROR_MSG, PAYLOAD_DECODE_ERROR_MSG,
};
use crate::session::Session;
use vstd::prelude::*;

verus! {

/// How many of the frames are dispatches.
pub open spec fn dispatches(frames: Seq<FrameView>) -> nat
    decreases frames.len(),
{
    if frames.len() == 0 {
        0
    } else {
        dispatches(frames.drop_last()) + if frames.last().is_dispatch() {
            1nat
        } else {
            0nat
        }
    }
}

/// Whether the frame at `at` is in order among the frames: a gateway frame
/// is well formed, and a dispatch has the number of the dispatches up to and
/// with it.
pub open spec fn in_order_at(frames: Seq<FrameView>, at: int) -> bool {
    match frames[at] {
        FrameView::Event(event) => {
            &&& event.well_formed()
            &&& event.op == OpCode::Dispatch ==> event.s == Some(
                (dispatches(frames.take(at)) + 1) as u64,
            ) && dispatches(frames.take(at)) + 1 <= u64::MAX
        },
        FrameView::Raw(_) => true,
    }
}

/// Whether every frame is in order: the gateway frames are well formed and
/// the dispatches are numbered 1, 2, 3 and so on.
pub open spec fn in_order(frames: Seq<FrameView>) -> bool {
    forall|at: int| 0 <= at < frames.len() ==> in_order_at(frames, at)
}

impl WriterView {
    /// Whether the write side is in order: the frames it took are, and while
    /// it is open its counter holds the number of the next dispatch.
    pub open spec fn consistent(self) -> bool {
        &&& in_order(self.sent)
        &&& self.closed || self.sequence == dispatches(self.sent) + 1
    }

    /// Whether the write side can number `count` more dispatches.
    pub open spec fn has_room(self, count: nat) -> bool {
        self.closed || self.sequence + count <= u64::MAX
    }

    /// Whether `after` is this write side some frames later: what was taken
    /// is still there, in its place.
    pub open spec fn precedes(self, after: WriterView) -> bool {
        self.sent.is_prefix_of(after.sent)
    }
}

/// One more frame adds to the count of dispatches if it is one.
pub proof fn lemma_dispatches_push(frames: Seq<FrameView>, frame: FrameView)
    ensures
        dispatches(frames.push(frame)) == dispatches(frames) + if frame.is_dispatch() {
            1nat
        } else {
            0nat
        },
{
    assert(frames.push(frame).drop_last() =~= frames);
}

/// Frames that are in order stay so when one more frame follows them that
/// is in order after them.
pub proof fn lemma_in_order_push(frames: Seq<FrameView>, frame: FrameView)
    requires
        in_order(frames),
        match frame {
            FrameView::Event(event) => {
                &&& event.well_formed()
                &&& event.op == OpCode::Dispatch ==> event.s == Some(
                    (dispatches(frames) + 1) as u64,
                ) && dispatches(frames) + 1 <= u64::MAX
            },
            FrameView::Raw(_) => true,
        },
    ensures
        in_order(frames.push(frame)),
{
    let longer = frames.push(frame);
    assert forall|at: int| 0 <= at < longer.len() implies in_order_at(longer, at) by {
        if at < frames.len() {
            assert(in_order_at(frames, at));
            assert(longer.take(at) =~= frames.take(at));
        } else {
            assert(longer.take(at) =~= frames);
        }
    }
}

/// A write side in order stays so when it is offered a frame that is no
/// dispatch, and what it took before is still there.
pub proof fn lemma_enqueue_in_order(writer: WriterView, frame: FrameView, spare: nat)
    requires
        writer.consistent(),
        writer.has_room(spare),
        frame.is_plain(),
    ensures
        writer.enqueue(frame).consistent(),
        writer.enqueue(frame).has_room(spare),
        writer.precedes(writer.enqueue(frame)),
{
    if !writer.closed {
        lemma_in_order_push(writer.sent, frame);
        lemma_dispatches_push(writer.sent, frame);
    }
}

/// A write side in order with room for one more dispatch stays in order
/// when it is offered a payload, and what it took before is still there.
pub proof fn lemma_send_data_in_order(writer: WriterView, payload: PayloadView, spare: nat)
    requires
        writer.consistent(),
        writer.has_room(spare + 1),
    ensures
        writer.send_data(payload).consistent(),
        writer.send_data(payload).has_room(spare),
        writer.precedes(writer.send_data(payload)),
{
    if !writer.closed {
        let frame = writer.framed(payload);
        lemma_in_order_push(writer.sent, frame);
        lemma_dispatches_push(writer.sent, frame);
    }
}

/// The count of dispatches among the first frames grows by one with each
/// dispatch, and not otherwise.
pub proof fn lemma_dispatches_take(frames: Seq<FrameView>, at: int)
    requires
        0 <= at < frames.len(),
    ensures
        dispatches(frames.take(at + 1)) == dispatches(frames.take(at)) + if frames[at].is_dispatch() {
            1nat
        } else {
            0nat
        },
{
    assert(frames.take(at + 1).drop_last() =~= frames.take(at));
}

/// Where no dispatch lies from `from` up to `to`, as many dispatches lie
/// before `to` as before `from`.
pub proof fn lemma_dispatches_between(frames: Seq<FrameView>, from: int, to: int)
    requires
        0 <= from <= to <= frames.len(),
        forall|at: int| from <= at < to ==> !(#[trigger] frames[at]).is_dispatch(),
    ensures
        dispatches(frames.take(to)) == dispatches(frames.take(from)),
    decreases to - from,
{
    if from < to {
        lemma_dispatches_between(frames, from, to - 1);
        lemma_dispatches_take(frames, to - 1);
    }
}

/// Of two dispatches that a connection sent one after the other, the later
/// has the number after the earlier one's.
pub proof fn lemma_dispatch_numbers_follow(frames: Seq<FrameView>, earlier: int, later: int)
    requires
        in_order(frames),
        0 <= earlier < later < frames.len(),
        frames[earlier].is_dispatch(),
        frames[later].is_dispatch(),
        forall|at: int| earlier < at < later ==> !(#[trigger] frames[at]).is_dispatch(),
    ensures
        frames[earlier]->Event_0.s is Some,
        frames[later]->Event_0.s is Some,
        frames[later]->Event_0.s->Some_0 == frames[earlier]->Event_0.s->Some_0 + 1,
{
    assert(in_order_at(frames, earlier));
    assert(in_order_at(frames, later));
    lemma_dispatches_take(frames, earlier);
    lemma_dispatches_between(frames, earlier + 1, later);
}

/// A gateway frame that a connection sent and that is no dispatch has
/// neither a sequence number nor the name of an event.
pub proof fn lemma_plain_frames_are_bare(frames: Seq<FrameView>, at: int)
    requires
        in_order(frames),
        0 <= at < frames.len(),
        frames[at] is Event,
        !frames[at].is_dispatch(),
    ensures
        frames[at]->Event_0.s is None,
        frames[at]->Event_0.t is None,
{
    assert(in_order_at(frames, at));
}

/// The frame that says hello: the operation is `Hello` and the interval of
/// heartbeats is 41250 milliseconds.
pub open spec fn hello_frame() -> FrameView {
    FrameView::Event(
        EnvelopeView {
            t: None,
            s: None,
            op: OpCode::Hello,
            d: Some(PayloadView::Hello(Hello { heartbeat_interval: 41250 })),
        },
    )
}

/// Invalidating a session keeps a write side in order, and what it took
/// before is still there.
pub proof fn lemma_invalidate_in_order(
    state: StateView,
    registry: Map<Seq<char>, Session>,
    resumable: bool,
    spare: nat,
)
    requires
        state.writer.consistent(),
        state.writer.has_room(spare),
    ensures
        state.invalidate(registry, resumable).state.writer.consistent(),
        state.invalidate(registry, resumable).state.writer.has_room(spare),
        state.writer.precedes(state.invalidate(registry, resumable).state.writer),
{
    if state.session_id is Some {
        let payload = PayloadView::InvalidSession(resumable);
        let told = state.writer.send_data(payload);
        assert(told == state.writer.enqueue(state.writer.framed(payload)));
        lemma_enqueue_in_order(state.writer, state.writer.framed(payload), spare);
        lemma_enqueue_in_order(told, FrameView::close(CloseCode::Normal, ""@), spare);
    }
}

/// Answering a frame of the client keeps a write side in order that has
/// room for one more dispatch, and what it took before is still there.
pub proof fn lemma_process_in_order(
    state: StateView,
    registry: Map<Seq<char>, Session>,
    config: ConfigView,
    event: EnvelopeView,
    fresh_id: Seq<char>,
    spare: nat,
)
    requires
        state.writer.consistent(),
        state.writer.has_room(spare + 1),
    ensures
        state.process(registry, config, event, fresh_id).state.writer.consistent(),
        state.process(registry, config, event, fresh_id).state.writer.has_room(spare),
        state.writer.precedes(state.process(registry, config, event, fresh_id).state.writer),
{
    let refused_intents = FrameView::close(
        CloseCode::Library(DISALLOWED_INTENTS_CODE),
        DISALLOWED_INTENTS_ERROR_MSG@,
    );
    let refused_token = FrameView::close(
        CloseCode::Library(AUTHENTICATION_FAILED_CODE),
        AUTHENTICATION_FAILED_ERROR_MSG@,
    );
    lemma_enqueue_in_order(state.writer, refused_intents, spare);
    lemma_enqueue_in_order(state.writer, refused_token, spare);
    lemma_enqueue_in_order(state.writer, FrameView::Event(EnvelopeView::heartbeat_ack()), spare);
    lemma_invalidate_in_order(state, registry, false, spare);
    lemma_send_data_in_order(state.writer, PayloadView::Resumed, spare);
    match event.d {
        Some(PayloadView::Identify(info)) => {
            lemma_send_data_in_order(
                state.writer,
                PayloadView::ready(config, fresh_id, info.shard),
                spare,
            );
        },
        _ => {},
    }
}

/// Taking what came in from the client keeps a write side in order that
/// has room for one more dispatch, and what it took before is still there.
pub proof fn lemma_handle_in_order(
    state: StateView,
    registry: Map<Seq<char>, Session>,
    config: ConfigView,
    incoming: IncomingView,
    fresh_id: Seq<char>,
    spare: nat,
)
    requires
        state.writer.consistent(),
        state.writer.has_room(spare + 1),
    ensures
        state.handle(registry, config, incoming, fresh_id).state.writer.consistent(),
        state.handle(registry, config, incoming, fresh_id).state.writer.has_room(spare),
        state.writer.precedes(state.handle(registry, config, incoming, fresh_id).state.writer),
{
    let greeted = state.greet(registry);
    let hello = state.writer.framed(PayloadView::hello());
    assert(state.writer.send_data(PayloadView::hello()) == state.writer.enqueue(hello));
    lemma_enqueue_in_order(state.writer, hello, spare + 1);
    if greeted.result is Ok {
        match incoming {
            IncomingView::Connected => {},
            IncomingView::Event(event) => {
                lemma_process_in_order(greeted.state, registry, config, event, fresh_id, spare);
            },
            IncomingView::Undecodable => {
                lemma_enqueue_in_order(
                    greeted.state.writer,
                    FrameView::close(
                        CloseCode::Library(DECODE_ERROR_CODE),
                        PAYLOAD_DECODE_ERROR_MSG@,
                    ),
                    spare,
                );
            },
        }
    }
}

/// The frame that tells a client it is ready, as the dispatch numbered
/// `sequence`.
pub open spec fn ready_frame(
    config: ConfigView,
    session_id: Seq<char>,
    shard: Option<ShardId>,
    sequence: u64,
) -> FrameView {
    FrameView::Event(
        EnvelopeView {
            t: Some("READY"@),
            s: Some(sequence),
            op: OpCode::Dispatch,
            d: Some(PayloadView::ready(config, session_id, shard)),
        },
    )
}

/// A client that is taken when it identifies, on a connection whose write
/// side is open, is told it is ready in a dispatch named `READY` that
/// carries the identifier of the session made for it; the session is in the
/// registry under that identifier, and is there no more once it is
/// destroyed.
pub proof fn lemma_ready_names_the_session(
    state: StateView,
    registry: Map<Seq<char>, Session>,
    config: ConfigView,
    info: IdentifyView,
    id: Seq<char>,
)
    requires
        is_taken(config, info),
        !state.writer.closed,
    ensures
        state.identify(registry, config, info, id).result == Ok::<Outcome, ErrorView>(
            Outcome::StartScript,
        ),
        state.identify(registry, config, info, id).state.writer.sent.last() == ready_frame(
            config,
            id,
            info.shard,
            state.writer.sequence,
        ),
        PayloadView::ready(config, id, info.shard)->Ready_0.session_id == id,
        state.identify(registry, config, info, id).registry.dom().contains(id),
        state.identify(registry, config, info, id).registry[id] == Session::of(info),
        !state.identify(registry, config, info, id).registry.remove(id).dom().contains(id),
{
}

/// The script is started only once the client was told it is ready or has
/// resumed: where answering a frame asks for the script, the frame sent
/// last is the dispatch named `READY` or `RESUMED`.
pub proof fn lemma_script_starts_after_ready(
    state: StateView,
    registry: Map<Seq<char>, Session>,
    config: ConfigView,
    event: EnvelopeView,
    id: Seq<char>,
)
    requires
        state.process(registry, config, event, id).result == Ok::<Outcome, ErrorView>(
            Outcome::StartScript,
        ),
    ensures
        state.process(registry, config, event, id).state.writer.sent.len() > 0,
        state.process(registry, config, event, id).state.writer.sent.last().is_dispatch(),
        ({
            let name = state.process(registry, config, event, id).state.writer.sent.last()->Event_0.t;
            name == Some("READY"@) || name == Some("RESUMED"@)
        }),
        state.process(registry, config, event, id).state.session_id is Some,
{
}

/// The write side of a new connection is in order, and has room.
pub proof fn lemma_fresh_in_order()
    ensures
        StateView::fresh().writer.consistent(),
        StateView::fresh().writer.has_room((u64::MAX - 1) as nat),
{
}

/// The first frame of a connection says hello: where nothing was sent and
/// hello is owed, whatever comes in, the first frame sent is the hello
/// frame, and one is sent unless the write side is closed.
pub proof fn lemma_first_frame_is_hello(
    state: StateView,
    registry: Map<Seq<char>, Session>,
    config: ConfigView,
    incoming: IncomingView,
    fresh_id: Seq<char>,
)
    requires
        state.writer.sent.len() == 0,
        !state.greeted,
    ensures
        ({
            let sent = state.handle(registry, config, incoming, fresh_id).state.writer.sent;
            if state.writer.closed {
                sent.len() == 0
            } else {
                sent.len() > 0 && sent[0] == hello_frame()
            }
        }),
{
    let greeted = state.greet(registry);
    if !state.writer.closed {
        assert(greeted.state.writer.sent[0] == hello_frame());
        match incoming {
            IncomingView::Connected => {},
            IncomingView::Event(event) => {
                let after = greeted.state.process(registry, config, event, fresh_id);
                lemma_process_extends(greeted.state, registry, config, event, fresh_id);
                assert(after.state.writer.sent[0] == greeted.state.writer.sent[0]);
            },
            IncomingView::Undecodable => {},
        }
    }
}

/// What a write side took before a frame of the client is answered is
/// still there afterwards, in its place.
pub proof fn lemma_process_extends(
    state: StateView,
    registry: Map<Seq<char>, Session>,
    config: ConfigView,
    event: EnvelopeView,
    fresh_id: Seq<char>,
)
    ensures
        state.writer.precedes(state.process(registry, config, event, fresh_id).state.writer),
{
}

/// What a write side took before something came in from the client is
/// still there afterwards, in its place.
pub proof fn lemma_handle_extends(
    state: StateView,
    registry: Map<Seq<char>, Session>,
    config: ConfigView,
    incoming: IncomingView,
    fresh_id: Seq<char>,
)
    ensures
        state.writer.precedes(state.handle(registry, config, incoming, fresh_id).state.writer),
{
    let greeted = state.greet(registry);
    if let IncomingView::Event(event) = incoming {
        lemma_process_extends(greeted.state, registry, config, event, fresh_id);
    }
}

/// A connection is bound once: whatever comes in from the client, a
/// connection that is bound to a session stays bound to it.
pub proof fn lemma_handle_keeps_binding(
    state: StateView,
    registry: Map<Seq<char>, Session>,
    config: ConfigView,
    incoming: IncomingView,
    fresh_id: Seq<char>,
)
    requires
        state.session_id is Some,
    ensures
        state.handle(registry, config, incoming, fresh_id).state.session_id == state.session_id,
{
}

} // verus!
