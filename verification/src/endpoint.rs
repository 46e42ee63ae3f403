//! The server's side of one event stream: what to write to a subscriber
//! next, and when to stop.
//!
//! The endpoint holds a subscriber's handle. Whoever serves the connection
//! asks it what to write, writes that, and reports whether the write went
//! through. A failed write closes this stream, and this stream only; coming
//! back is the client's business.

use vstd::prelude::*;
use crate::broadcast::{owed, Broadcaster, SubscriptionHandle};
use crate::models::{OrderWithOrderView, SseEvent, SseEventView};

verus! {

/// What goes out on the stream.
#[derive(Debug, PartialEq, Eq)]
pub enum Frame {
    /// An event, to be written as one message.
    Message(SseEvent),
    /// A frame without content, which keeps an idle connection open.
    KeepAlive,
}

/// What a [`Frame`] holds.
pub enum FrameView {
    Message(SseEventView),
    KeepAlive,
}

impl View for Frame {
    type V = FrameView;

    open spec fn view(&self) -> FrameView {
        match self {
            Frame::Message(event) => FrameView::Message(event@),
            Frame::KeepAlive => FrameView::KeepAlive,
        }
    }
}

/// What the endpoint asks of whoever serves the connection.
#[derive(Debug, PartialEq, Eq)]
pub enum StreamStep {
    /// Write this frame, then report how the write went.
    Write(Frame),
    /// Nothing to write: wait for the next publication or the next keep-alive
    /// tick.
    Wait,
    /// The stream is closed. Drop the connection.
    Closed,
}

/// What a [`StreamStep`] holds.
pub enum StreamStepView {
    Write(FrameView),
    Wait,
    Closed,
}

impl View for StreamStep {
    type V = StreamStepView;

    open spec fn view(&self) -> StreamStepView {
        match self {
            StreamStep::Write(frame) => StreamStepView::Write(frame@),
            StreamStep::Wait => StreamStepView::Wait,
            StreamStep::Closed => StreamStepView::Closed,
        }
    }
}

/// The one way a stream fails: a frame could not be written.
#[derive(Debug, Copy, Clone, PartialEq, Eq, Structural)]
pub struct TransportFailure;

/// One subscriber's stream.
pub struct EventStream {
    handle: SubscriptionHandle,
    open: bool,
}

/// The step an open stream takes: the latest snapshot if the subscriber has
/// not had it, else a keep-alive frame if the connection has been idle for
/// long enough, else nothing.
pub open spec fn next_of(
    history: Seq<Seq<OrderWithOrderView>>,
    position: nat,
    idle: bool,
) -> StreamStepView {
    if owed(history.len(), position) {
        StreamStepView::Write(FrameView::Message(SseEventView::BreaksUpdated(history.last())))
    } else if idle {
        StreamStepView::Write(FrameView::KeepAlive)
    } else {
        StreamStepView::Wait
    }
}

impl EventStream {
    /// Whether the stream is still served.
    pub closed spec fn is_open(&self) -> bool {
        self.open
    }

    /// How far the subscriber has read in the broadcaster's history.
    pub closed spec fn position(&self) -> nat {
        self.handle.position()
    }

    /// A stream for a subscriber that has just connected. Its first step
    /// writes the queue as it stands.
    pub fn connect(broadcaster: &Broadcaster) -> (res: EventStream)
        ensures
            res.is_open(),
            res.position() == 0,
    {
        EventStream { handle: broadcaster.subscribe(), open: true }
    }

    /// What to do next. `idle` says that the keep-alive interval has passed
    /// since the last frame went out.
    pub fn next(&mut self, broadcaster: &Broadcaster, idle: bool) -> (res: StreamStep)
        ensures
            final(self).is_open() == old(self).is_open(),
            !old(self).is_open() ==> res@ == StreamStepView::Closed && final(self).position()
                == old(self).position(),
            old(self).is_open() ==> res@ == next_of(
                broadcaster.history(),
                old(self).position(),
                idle,
            ) && final(self).position() == (if owed(
                broadcaster.history().len(),
                old(self).position(),
            ) {
                broadcaster.history().len()
            } else {
                old(self).position()
            }),
    {
        if !self.open {
            return StreamStep::Closed;
        }
        match broadcaster.poll(&mut self.handle) {
            Some(snapshot) => StreamStep::Write(Frame::Message(SseEvent::BreaksUpdated(snapshot))),
            None => if idle {
                StreamStep::Write(Frame::KeepAlive)
            } else {
                StreamStep::Wait
            },
        }
    }

    /// Takes note of how a write went. A failed write closes the stream for
    /// good; nothing is retried from this side.
    pub fn written(&mut self, outcome: Result<(), TransportFailure>)
        ensures
            final(self).is_open() == (old(self).is_open() && outcome is Ok),
            final(self).position() == old(self).position(),
    {
        if outcome.is_err() {
            self.open = false;
        }
    }
}

} // verus!
