//! What a dashboard keeps: the queue as last heard of, and whether there is
//! a connection.
//!
//! The dashboard is a reducer. A message comes in, the state changes, and a
//! command says what is to happen outside. Whatever the server sends replaces the
//! local queue whole; nothing is merged.

use vstd::prelude::*;
use crate::client::{Event, EventView, UserMessage, UserMessageView};
use crate::models::{swapped, Breaks, OrderWithOrderView, SseEvent, SseEventView};

verus! {

/// Whether the dashboard has a connection to the server.
#[derive(Debug, Copy, Clone, PartialEq, Eq, Structural)]
pub enum AppState {
    Disconnected,
    Connected,
}

impl Default for AppState {
    fn default() -> (res: Self)
        ensures
            res == AppState::Disconnected,
    {
        AppState::Disconnected
    }
}

/// What the dashboard reacts to.
#[derive(Debug, PartialEq, Eq)]
pub enum InnerAppMessage {
    MessageSent,
    Connected,
    Disconnected,
    /// The subscription reports something.
    EventSourceEvent(Event),
    /// The operator marks the entry at this place as done.
    BreakCompleted(usize),
    /// The operator moves the entry at this place one up.
    MoveUp(usize),
    /// The operator moves the entry at this place one down.
    MoveDown(usize),
}

/// What an [`InnerAppMessage`] holds.
pub enum InnerAppMessageView {
    MessageSent,
    Connected,
    Disconnected,
    EventSourceEvent(EventView),
    BreakCompleted(usize),
    MoveUp(usize),
    MoveDown(usize),
}

impl View for InnerAppMessage {
    type V = InnerAppMessageView;

    open spec fn view(&self) -> InnerAppMessageView {
        match self {
            InnerAppMessage::MessageSent => InnerAppMessageView::MessageSent,
            InnerAppMessage::Connected => InnerAppMessageView::Connected,
            InnerAppMessage::Disconnected => InnerAppMessageView::Disconnected,
            InnerAppMessage::EventSourceEvent(event) => InnerAppMessageView::EventSourceEvent(
                event@,
            ),
            InnerAppMessage::BreakCompleted(idx) => InnerAppMessageView::BreakCompleted(*idx),
            InnerAppMessage::MoveUp(idx) => InnerAppMessageView::MoveUp(*idx),
            InnerAppMessage::MoveDown(idx) => InnerAppMessageView::MoveDown(*idx),
        }
    }
}

/// What is to happen outside the dashboard after a message.
#[derive(Debug, PartialEq, Eq)]
pub enum Command {
    Nothing,
    /// Pass the queue on to the widget.
    Relay,
    /// Pass the queue on to the widget and send this request to the server.
    RelayAndSend(UserMessage),
    /// Tell the operator that the request failed: there is no connection, or
    /// no entry at that place that could move that way.
    Rejected,
}

/// What a [`Command`] holds.
pub enum CommandView {
    Nothing,
    Relay,
    RelayAndSend(UserMessageView),
    Rejected,
}

impl View for Command {
    type V = CommandView;

    open spec fn view(&self) -> CommandView {
        match self {
            Command::Nothing => CommandView::Nothing,
            Command::Relay => CommandView::Relay,
            Command::RelayAndSend(message) => CommandView::RelayAndSend(message@),
            Command::Rejected => CommandView::Rejected,
        }
    }
}

/// The dashboard's state.
pub struct Dashboard {
    breaks: Breaks,
    state: AppState,
}

/// What a [`Dashboard`] holds.
pub struct DashboardView {
    pub breaks: Seq<OrderWithOrderView>,
    pub state: AppState,
}

impl View for Dashboard {
    type V = DashboardView;

    closed spec fn view(&self) -> DashboardView {
        DashboardView { breaks: self.breaks@, state: self.state }
    }
}

/// What a request of the operator does to a connected dashboard's queue `q`,
/// and what goes to the server: the entry at `idx` leaves or changes places
/// with a neighbour, and the request names it by its order number. Nothing,
/// if no entry stands at `idx` or it has no neighbour on that side.
pub open spec fn act_of(q: Seq<OrderWithOrderView>, message: InnerAppMessageView) -> Option<
    (Seq<OrderWithOrderView>, UserMessageView),
> {
    match message {
        InnerAppMessageView::BreakCompleted(idx) => if idx < q.len() {
            Some((q.remove(idx as int), UserMessageView::BreakCompleted(q[idx as int].order_id)))
        } else {
            None
        },
        InnerAppMessageView::MoveUp(idx) => if 0 < idx < q.len() {
            Some((swapped(q, idx as int, idx - 1), UserMessageView::MoveUp(q[idx as int].order_id)))
        } else {
            None
        },
        InnerAppMessageView::MoveDown(idx) => if idx + 1 < q.len() {
            Some(
                (swapped(q, idx as int, idx + 1), UserMessageView::MoveDown(q[idx as int].order_id)),
            )
        } else {
            None
        },
        _ => None,
    }
}

/// Whether `message` is a request of the operator.
pub open spec fn is_request(message: InnerAppMessageView) -> bool {
    message is BreakCompleted || message is MoveUp || message is MoveDown
}

/// The dashboard's rule: the state and the command that follow from `model`
/// when `message` comes in.
pub open spec fn update_of(model: DashboardView, message: InnerAppMessageView) -> (
    DashboardView,
    CommandView,
) {
    match message {
        InnerAppMessageView::MessageSent => (model, CommandView::Nothing),
        InnerAppMessageView::Connected => (model, CommandView::Nothing),
        InnerAppMessageView::Disconnected => (model, CommandView::Nothing),
        InnerAppMessageView::EventSourceEvent(event) => match event {
            EventView::Connected { all_orders } => (
                DashboardView { breaks: all_orders, state: AppState::Connected },
                CommandView::Relay,
            ),
            EventView::MessageReceivedFromEventSource(SseEventView::BreaksUpdated(breaks)) => (
                DashboardView { breaks, state: model.state },
                CommandView::Relay,
            ),
            EventView::EventStreamDisconnected(_) => (
                DashboardView { breaks: model.breaks, state: AppState::Disconnected },
                CommandView::Nothing,
            ),
            EventView::AwaitingPassword { .. } => (
                DashboardView { breaks: model.breaks, state: AppState::Disconnected },
                CommandView::Nothing,
            ),
        },
        _ => if model.state == AppState::Connected {
            match act_of(model.breaks, message) {
                Some((breaks, request)) => (
                    DashboardView { breaks, state: model.state },
                    CommandView::RelayAndSend(request),
                ),
                None => (model, CommandView::Rejected),
            }
        } else {
            (model, CommandView::Rejected)
        },
    }
}

impl Dashboard {
    /// A dashboard that has heard nothing yet: no entries, no connection.
    pub fn new() -> (res: Dashboard)
        ensures
            res@ == (DashboardView { breaks: Seq::empty(), state: AppState::Disconnected }),
    {
        Dashboard { breaks: Breaks::empty(), state: AppState::default() }
    }

    /// The queue as last heard of.
    pub fn breaks(&self) -> (res: &Breaks)
        ensures
            res@ == self@.breaks,
    {
        &self.breaks
    }

    /// Whether there is a connection.
    pub fn state(&self) -> (res: AppState)
        ensures
            res == self@.state,
    {
        self.state
    }

    /// Takes `message` in.
    pub fn update(&mut self, message: InnerAppMessage) -> (res: Command)
        ensures
            (final(self)@, res@) == update_of(old(self)@, message@),
    {
        match message {
            InnerAppMessage::MessageSent => Command::Nothing,
            InnerAppMessage::Connected => Command::Nothing,
            InnerAppMessage::Disconnected => Command::Nothing,
            InnerAppMessage::EventSourceEvent(event) => match event {
                Event::Connected { all_orders } => {
                    self.state = AppState::Connected;
                    self.breaks = Breaks::from_ordered(all_orders);
                    Command::Relay
                },
                Event::MessageReceivedFromEventSource(SseEvent::BreaksUpdated(breaks)) => {
                    self.breaks = breaks;
                    Command::Relay
                },
                Event::EventStreamDisconnected(_) => {
                    self.state = AppState::Disconnected;
                    Command::Nothing
                },
                Event::AwaitingPassword { last_password_was_bad: _ } => {
                    self.state = AppState::Disconnected;
                    Command::Nothing
                },
            },
            InnerAppMessage::BreakCompleted(idx) => {
                if self.state == AppState::Connected && idx < self.breaks.len() {
                    let request = UserMessage::BreakCompleted(self.breaks.get(idx).order_id);
                    self.breaks.complete(idx);
                    Command::RelayAndSend(request)
                } else {
                    Command::Rejected
                }
            },
            InnerAppMessage::MoveUp(idx) => {
                if self.state == AppState::Connected && 0 < idx && idx < self.breaks.len() {
                    let request = UserMessage::MoveUp(self.breaks.get(idx).order_id);
                    self.breaks.move_up(idx);
                    Command::RelayAndSend(request)
                } else {
                    Command::Rejected
                }
            },
            InnerAppMessage::MoveDown(idx) => {
                if self.state == AppState::Connected && !self.breaks.is_empty() && idx
                    < self.breaks.len() - 1 {
                    let request = UserMessage::MoveDown(self.breaks.get(idx).order_id);
                    self.breaks.move_down(idx);
                    Command::RelayAndSend(request)
                } else {
                    Command::Rejected
                }
            },
        }
    }
}

/// Without a connection no request of the operator has any effect: the
/// dashboard stays as it is and the request is rejected.
pub proof fn lemma_requests_fail_while_disconnected(
    model: DashboardView,
    message: InnerAppMessageView,
)
    requires
        model.state == AppState::Disconnected,
        is_request(message),
    ensures
        update_of(model, message) == (model, CommandView::Rejected),
{
}

/// What the server sends replaces the dashboard's queue whole, whatever the
/// dashboard held before.
pub proof fn lemma_snapshot_replaces_queue(
    model: DashboardView,
    other: DashboardView,
    breaks: Seq<OrderWithOrderView>,
)
    ensures
        ({
            let message = InnerAppMessageView::EventSourceEvent(
                EventView::MessageReceivedFromEventSource(SseEventView::BreaksUpdated(breaks)),
            );
            &&& update_of(model, message).0.breaks == breaks
            &&& update_of(other, message).0.breaks == breaks
            &&& update_of(update_of(model, message).0, message).0 == update_of(model, message).0
        }),
{
}

} // verus!
