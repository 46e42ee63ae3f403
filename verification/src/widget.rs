//! The widget that shows the queue on stream. It listens to the dashboard
//! it belongs to and shows what it was last told.

use vstd::prelude::*;
use crate::client::{SubscriptionState, SubscriptionStateView};
use crate::models::{Breaks, OrderWithOrderView};

verus! {

/// Starts the widget's subscription to its dashboard. The endpoint is open:
/// no credential is needed, and the first attempt is due at once.
pub fn connect() -> (res: SubscriptionState)
    ensures
        res@ == (SubscriptionStateView::Disconnected { auth_key: None, retry_in: 0 }),
{
    SubscriptionState::Disconnected { auth_key: None, retry_in: 0 }
}

/// What the widget reacts to.
#[derive(Debug, PartialEq, Eq)]
pub enum Message {
    /// The dashboard passed the queue on.
    NewState(Breaks),
}

/// The widget's state: the queue as the dashboard last passed it on.
pub struct Widget {
    breaks: Breaks,
}

impl View for Widget {
    type V = Seq<OrderWithOrderView>;

    closed spec fn view(&self) -> Seq<OrderWithOrderView> {
        self.breaks@
    }
}

impl Widget {
    /// A widget that has heard nothing yet.
    pub fn new() -> (res: Widget)
        ensures
            res@ == Seq::<OrderWithOrderView>::empty(),
    {
        Widget { breaks: Breaks::empty() }
    }

    /// The queue to show.
    pub fn breaks(&self) -> (res: &Breaks)
        ensures
            res@ == self@,
    {
        &self.breaks
    }

    /// Takes `message` in: the queue it carries replaces the one shown.
    pub fn update(&mut self, message: Message)
        ensures
            message matches Message::NewState(breaks) && final(self)@ == breaks@,
    {
        match message {
            Message::NewState(breaks) => {
                self.breaks = breaks;
            },
        }
    }
}

} // verus!
