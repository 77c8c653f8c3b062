//! Decisions of the delivery worker, which drains the log channel into one
//! WebSocket session at a time.
//!
//! The worker is a state machine: the caller performs each [`Action`] (accept
//! a connection, receive from the channel, write a message, close, flush) and
//! reports what happened as an [`Event`]; [`step`] picks the next action.
use vstd::prelude::*;

verus! {

/// How many flushes of the closing handshake are tried before giving up.
pub const MAX_FLUSH_ATTEMPTS: u32 = 50;

#[derive(PartialEq, Eq, Structural, Debug, Clone, Copy)]
pub enum WorkerState {
    /// No session: accepting a connection and its handshake.
    WaitingForConnection,
    /// A session is open: frames from the channel are written to it.
    Streaming,
    /// The channel is closed and empty: the close frame is being flushed;
    /// `attempts` flushes have failed so far.
    Draining { attempts: u32 },
    /// The worker is done.
    Closed,
}

/// What happened when the last action was performed.
pub enum Event {
    /// A connection was accepted and its WebSocket handshake completed.
    Connected,
    /// Accepting a connection, or its handshake, failed.
    ConnectFailed,
    /// A frame was taken from the channel.
    Received(Vec<u8>),
    /// The channel is closed and holds no more frames.
    ChannelClosed,
    /// The message was written.
    SendOk,
    /// Writing the message failed: the peer is gone.
    SendFailed,
    /// The close frame has been flushed.
    FlushOk,
    /// Flushing the close frame failed.
    FlushFailed,
}

/// What the worker is to do next.
pub enum Action {
    /// Accept a connection and perform the WebSocket handshake.
    Accept,
    /// Block on the channel for the next frame.
    Receive,
    /// Write this frame as one binary message.
    Send(Vec<u8>),
    /// Send the close frame and flush it.
    Close,
    /// Wait a moment, then flush the close frame again.
    RetryFlush,
    /// Stop: the worker exits.
    Exit,
}

pub enum EventView {
    Connected,
    ConnectFailed,
    Received(Seq<u8>),
    ChannelClosed,
    SendOk,
    SendFailed,
    FlushOk,
    FlushFailed,
}

pub enum ActionView {
    Accept,
    Receive,
    Send(Seq<u8>),
    Close,
    RetryFlush,
    Exit,
}

impl View for Event {
    type V = EventView;

    open spec fn view(&self) -> EventView {
        match self {
            Event::Connected => EventView::Connected,
            Event::ConnectFailed => EventView::ConnectFailed,
            Event::Received(f) => EventView::Received(f@),
            Event::ChannelClosed => EventView::ChannelClosed,
            Event::SendOk => EventView::SendOk,
            Event::SendFailed => EventView::SendFailed,
            Event::FlushOk => EventView::FlushOk,
            Event::FlushFailed => EventView::FlushFailed,
        }
    }
}

impl View for Action {
    type V = ActionView;

    open spec fn view(&self) -> ActionView {
        match self {
            Action::Accept => ActionView::Accept,
            Action::Receive => ActionView::Receive,
            Action::Send(f) => ActionView::Send(f@),
            Action::Close => ActionView::Close,
            Action::RetryFlush => ActionView::RetryFlush,
            Action::Exit => ActionView::Exit,
        }
    }
}

impl WorkerState {
    /// A draining worker has flushes left to try.
    pub open spec fn wf(self) -> bool {
        self matches WorkerState::Draining { attempts } ==> attempts < MAX_FLUSH_ATTEMPTS
    }
}

/// The action that a state repeats when an event arrives that its last
/// action could not have produced.
pub open spec fn resume(s: WorkerState) -> ActionView {
    match s {
        WorkerState::WaitingForConnection => ActionView::Accept,
        WorkerState::Streaming => ActionView::Receive,
        WorkerState::Draining { .. } => ActionView::RetryFlush,
        WorkerState::Closed => ActionView::Exit,
    }
}

/// The worker's transition relation.
pub open spec fn transition(s: WorkerState, e: EventView) -> (WorkerState, ActionView) {
    match (s, e) {
        (WorkerState::WaitingForConnection, EventView::Connected) => (
            WorkerState::Streaming,
            ActionView::Receive,
        ),
        (WorkerState::WaitingForConnection, EventView::ConnectFailed) => (
            WorkerState::WaitingForConnection,
            ActionView::Accept,
        ),
        (WorkerState::Streaming, EventView::Received(f)) => (
            WorkerState::Streaming,
            ActionView::Send(f),
        ),
        (WorkerState::Streaming, EventView::SendOk) => (WorkerState::Streaming, ActionView::Receive),
        (WorkerState::Streaming, EventView::SendFailed) => (
            WorkerState::WaitingForConnection,
            ActionView::Accept,
        ),
        (WorkerState::Streaming, EventView::ChannelClosed) => (
            WorkerState::Draining { attempts: 0 },
            ActionView::Close,
        ),
        (WorkerState::Draining { .. }, EventView::FlushOk) => (
            WorkerState::Closed,
            ActionView::Exit,
        ),
        (WorkerState::Draining { attempts }, EventView::FlushFailed) => if attempts + 1
            < MAX_FLUSH_ATTEMPTS {
            (WorkerState::Draining { attempts: (attempts + 1) as u32 }, ActionView::RetryFlush)
        } else {
            (WorkerState::Closed, ActionView::Exit)
        },
        _ => (s, resume(s)),
    }
}

/// The state the worker starts in, and its first action.
pub fn start() -> (r: (WorkerState, Action))
    ensures
        r.0 == WorkerState::WaitingForConnection,
        r.1@ == ActionView::Accept,
{
    (WorkerState::WaitingForConnection, Action::Accept)
}

/// The next state and action after `event` arrives in `state`.
pub fn step(state: WorkerState, event: Event) -> (r: (WorkerState, Action))
    ensures
        r.0 == transition(state, event@).0,
        r.1@ == transition(state, event@).1,
        state.wf() ==> r.0.wf(),
{
    match (state, event) {
        (WorkerState::WaitingForConnection, Event::Connected) => (
            WorkerState::Streaming,
            Action::Receive,
        ),
        (WorkerState::WaitingForConnection, Event::ConnectFailed) => (
            WorkerState::WaitingForConnection,
            Action::Accept,
        ),
        (WorkerState::Streaming, Event::Received(f)) => (WorkerState::Streaming, Action::Send(f)),
        (WorkerState::Streaming, Event::SendOk) => (WorkerState::Streaming, Action::Receive),
        (WorkerState::Streaming, Event::SendFailed) => (
            WorkerState::WaitingForConnection,
            Action::Accept,
        ),
        (WorkerState::Streaming, Event::ChannelClosed) => (
            WorkerState::Draining { attempts: 0 },
            Action::Close,
        ),
        (WorkerState::Draining { .. }, Event::FlushOk) => (WorkerState::Closed, Action::Exit),
        (WorkerState::Draining { attempts }, Event::FlushFailed) => {
            if attempts < MAX_FLUSH_ATTEMPTS - 1 {
                (WorkerState::Draining { attempts: attempts + 1 }, Action::RetryFlush)
            } else {
                (WorkerState::Closed, Action::Exit)
            }
        },
        (s, _) => {
            let a = match s {
                WorkerState::WaitingForConnection => Action::Accept,
                WorkerState::Streaming => Action::Receive,
                WorkerState::Draining { .. } => Action::RetryFlush,
                WorkerState::Closed => Action::Exit,
            };
            (s, a)
        },
    }
}

/// The state reached and the actions chosen when `es` arrive one by one
/// from `s`.
pub open spec fn run(s: WorkerState, es: Seq<EventView>) -> (WorkerState, Seq<ActionView>)
    decreases es.len(),
{
    if es.len() == 0 {
        (s, seq![])
    } else {
        let (s1, a) = transition(s, es[0]);
        let (s2, rest) = run(s1, es.drop_first());
        (s2, seq![a] + rest)
    }
}

/// Each frame taken from the channel, followed by a successful write.
pub open spec fn deliveries(frames: Seq<Seq<u8>>) -> Seq<EventView>
    decreases frames.len(),
{
    if frames.len() == 0 {
        seq![]
    } else {
        seq![EventView::Received(frames[0]), EventView::SendOk] + deliveries(frames.drop_first())
    }
}

/// A write of each frame, each followed by a wait for the next.
pub open spec fn writes(frames: Seq<Seq<u8>>) -> Seq<ActionView>
    decreases frames.len(),
{
    if frames.len() == 0 {
        seq![]
    } else {
        seq![ActionView::Send(frames[0]), ActionView::Receive] + writes(frames.drop_first())
    }
}

/// A frame taken and written while streaming: the worker writes it, then
/// waits for the next one.
proof fn lemma_two_steps(f: Seq<u8>, es: Seq<EventView>)
    requires
        es.len() >= 2,
        es[0] == EventView::Received(f),
        es[1] == EventView::SendOk,
    ensures
        run(WorkerState::Streaming, es) == (
            run(WorkerState::Streaming, es.drop_first().drop_first()).0,
            seq![ActionView::Send(f), ActionView::Receive] + run(
                WorkerState::Streaming,
                es.drop_first().drop_first(),
            ).1,
        ),
{
    let es1 = es.drop_first();
    let es2 = es1.drop_first();
    assert(es1[0] == EventView::SendOk);
    let r2 = run(WorkerState::Streaming, es2);
    assert(run(WorkerState::Streaming, es1) == (r2.0, seq![ActionView::Receive] + r2.1));
    assert(seq![ActionView::Send(f)] + (seq![ActionView::Receive] + r2.1) =~= seq![
        ActionView::Send(f),
        ActionView::Receive,
    ] + r2.1);
}

/// While a session stays up, the frames taken from the channel are written
/// one message each, in the order they were taken, none dropped or merged.
pub proof fn lemma_streaming_keeps_order(frames: Seq<Seq<u8>>)
    ensures
        run(WorkerState::Streaming, deliveries(frames)) == (WorkerState::Streaming, writes(frames)),
    decreases frames.len(),
{
    if frames.len() > 0 {
        let rest = frames.drop_first();
        lemma_streaming_keeps_order(rest);
        let es = deliveries(frames);
        assert(es[0] == EventView::Received(frames[0]));
        assert(es.drop_first() =~= seq![EventView::SendOk] + deliveries(rest));
        assert(es.drop_first()[0] == EventView::SendOk);
        assert(es.drop_first().drop_first() =~= deliveries(rest));
        lemma_two_steps(frames[0], es);
        assert(writes(frames) =~= seq![ActionView::Send(frames[0]), ActionView::Receive] + writes(
            rest,
        ));
    }
}

/// When the channel is closed with frames still queued, every one of them is
/// written before the close frame is sent, and the worker then waits for the
/// flush.
pub proof fn lemma_drain_before_close(frames: Seq<Seq<u8>>)
    ensures
        run(WorkerState::Streaming, deliveries(frames) + seq![EventView::ChannelClosed]) == (
            WorkerState::Draining { attempts: 0 },
            writes(frames) + seq![ActionView::Close],
        ),
    decreases frames.len(),
{
    let closed = seq![EventView::ChannelClosed];
    if frames.len() == 0 {
        assert(deliveries(frames) + closed =~= closed);
        assert(closed.drop_first() =~= Seq::<EventView>::empty());
        assert(writes(frames) + seq![ActionView::Close] =~= seq![ActionView::Close]);
        assert(run(WorkerState::Draining { attempts: 0 }, closed.drop_first()).1 =~= seq![]);
        assert(seq![ActionView::Close] + Seq::<ActionView>::empty() =~= seq![ActionView::Close]);
    } else {
        let rest = frames.drop_first();
        lemma_drain_before_close(rest);
        let es = deliveries(frames) + closed;
        assert(es[0] == EventView::Received(frames[0]));
        assert(es.drop_first() =~= seq![EventView::SendOk] + (deliveries(rest) + closed));
        assert(es.drop_first()[0] == EventView::SendOk);
        assert(es.drop_first().drop_first() =~= deliveries(rest) + closed);
        lemma_two_steps(frames[0], es);
        assert(writes(frames) + seq![ActionView::Close] =~= seq![
            ActionView::Send(frames[0]),
            ActionView::Receive,
        ] + (writes(rest) + seq![ActionView::Close]));
    }
}

} // verus!
