//! The subscription a dashboard keeps to the server's event stream.
//!
//! The subscription is a state and a rule. Whoever runs it does the waiting
//! and the network calls, reports what happened as a [`Signal`], and gets back
//! the next state and one [`Effect`] to carry out. The rule never gives up: a
//! lost connection is retried after a delay, for ever, and only a rejected
//! credential stops it until a new one is supplied.

use vstd::prelude::*;
use crate::models::{OrderWithOrder, OrderWithOrderView, SseEvent, SseEventView};
use crate::auth::{auth_header_of, build_auth_header};
use crate::text::decimal_of;
use crate::wix::OrderNumber;

verus! {

/// Seconds between losing a connection and trying again.
pub const RETRY_DELAY_SECS: u64 = 1;

/// What an operator asks of the server.
#[derive(Debug, PartialEq, Eq)]
pub enum UserMessage {
    BreakCompleted(OrderNumber),
    MoveUp(OrderNumber),
    MoveDown(OrderNumber),
    Rename(OrderNumber, String),
}

/// What a [`UserMessage`] holds.
pub enum UserMessageView {
    BreakCompleted(int),
    MoveUp(int),
    MoveDown(int),
    Rename(int, Seq<char>),
}

impl View for UserMessage {
    type V = UserMessageView;

    open spec fn view(&self) -> UserMessageView {
        match self {
            UserMessage::BreakCompleted(id) => UserMessageView::BreakCompleted(id@),
            UserMessage::MoveUp(id) => UserMessageView::MoveUp(id@),
            UserMessage::MoveDown(id) => UserMessageView::MoveDown(id@),
            UserMessage::Rename(id, name) => UserMessageView::Rename(id@, name@),
        }
    }
}

impl Clone for UserMessage {
    fn clone(&self) -> (res: Self)
        ensures
            res@ == self@,
    {
        match self {
            UserMessage::BreakCompleted(id) => UserMessage::BreakCompleted(*id),
            UserMessage::MoveUp(id) => UserMessage::MoveUp(*id),
            UserMessage::MoveDown(id) => UserMessage::MoveDown(*id),
            UserMessage::Rename(id, name) => UserMessage::Rename(*id, name.clone()),
        }
    }
}

/// The path under which the server takes `message`: the name of the
/// operation, a slash, and the order number in decimal.
pub open spec fn path_of(message: UserMessageView) -> Seq<char> {
    match message {
        UserMessageView::BreakCompleted(id) => "/order_completed/"@ + decimal_of(id),
        UserMessageView::MoveUp(id) => "/move_up/"@ + decimal_of(id),
        UserMessageView::MoveDown(id) => "/move_down/"@ + decimal_of(id),
        UserMessageView::Rename(id, _) => "/update_order/"@ + decimal_of(id),
    }
}

impl UserMessage {
    /// The order that the request is about.
    pub fn order_number(&self) -> (res: OrderNumber)
        ensures
            res@ == match self@ {
                UserMessageView::BreakCompleted(id) => id,
                UserMessageView::MoveUp(id) => id,
                UserMessageView::MoveDown(id) => id,
                UserMessageView::Rename(id, _) => id,
            },
    {
        match self {
            UserMessage::BreakCompleted(id) => *id,
            UserMessage::MoveUp(id) => *id,
            UserMessage::MoveDown(id) => *id,
            UserMessage::Rename(id, _) => *id,
        }
    }

    /// The path to send the request to.
    pub fn path(&self) -> (res: String)
        ensures
            res@ == path_of(self@),
    {
        let mut out = String::from_str(
            match self {
                UserMessage::BreakCompleted(_) => "/order_completed/",
                UserMessage::MoveUp(_) => "/move_up/",
                UserMessage::MoveDown(_) => "/move_down/",
                UserMessage::Rename(_, _) => "/update_order/",
            },
        );
        let number = self.order_number().to_text();
        out.append(number.as_str());
        out
    }
}

/// Why the stream is no longer there.
#[derive(Debug, Copy, Clone, PartialEq, Eq, Structural)]
pub enum DisconnectReason {
    Other,
}

/// What the subscription tells the dashboard.
#[derive(Debug, PartialEq, Eq)]
pub enum Event {
    /// A credential is needed before anything else happens.
    AwaitingPassword { last_password_was_bad: bool },
    /// The stream is open; `all_orders` is the queue as fetched on the way in.
    Connected { all_orders: Vec<OrderWithOrder> },
    EventStreamDisconnected(DisconnectReason),
    MessageReceivedFromEventSource(SseEvent),
}

/// What an [`Event`] holds.
pub enum EventView {
    AwaitingPassword { last_password_was_bad: bool },
    Connected { all_orders: Seq<OrderWithOrderView> },
    EventStreamDisconnected(DisconnectReason),
    MessageReceivedFromEventSource(SseEventView),
}

impl View for Event {
    type V = EventView;

    open spec fn view(&self) -> EventView {
        match self {
            Event::AwaitingPassword { last_password_was_bad } => EventView::AwaitingPassword {
                last_password_was_bad: *last_password_was_bad,
            },
            Event::Connected { all_orders } => EventView::Connected {
                all_orders: all_orders.deep_view(),
            },
            Event::EventStreamDisconnected(reason) => EventView::EventStreamDisconnected(*reason),
            Event::MessageReceivedFromEventSource(event) =>
                EventView::MessageReceivedFromEventSource(event@),
        }
    }
}

/// Why an attempt to reach the server came to nothing.
#[derive(Debug, Copy, Clone, PartialEq, Eq, Structural)]
pub enum Refusal {
    /// The server did not accept the credential, or none was sent.
    Unauthorized,
    /// Anything else: no route, a broken response, a status that is no success.
    Failed,
}

/// What happened, as reported by whoever runs the subscription.
#[derive(Debug, PartialEq, Eq)]
pub enum Signal {
    /// The operator entered a credential.
    CredentialSupplied(String),
    /// The delay before the next attempt has passed.
    RetryDue,
    /// The stream is open and the queue was fetched in full.
    Opened(Vec<OrderWithOrder>),
    /// A request was turned down.
    Refused(Refusal),
    /// The stream delivered an event.
    Received(SseEvent),
    /// The stream delivered something that carries no event.
    Idle,
    /// The stream failed or ended.
    Lost,
    /// The operator asked for something.
    User(UserMessage),
}

/// What a [`Signal`] holds.
pub enum SignalView {
    CredentialSupplied(Seq<char>),
    RetryDue,
    Opened(Seq<OrderWithOrderView>),
    Refused(Refusal),
    Received(SseEventView),
    Idle,
    Lost,
    User(UserMessageView),
}

impl View for Signal {
    type V = SignalView;

    open spec fn view(&self) -> SignalView {
        match self {
            Signal::CredentialSupplied(key) => SignalView::CredentialSupplied(key@),
            Signal::RetryDue => SignalView::RetryDue,
            Signal::Opened(all_orders) => SignalView::Opened(all_orders.deep_view()),
            Signal::Refused(refusal) => SignalView::Refused(*refusal),
            Signal::Received(event) => SignalView::Received(event@),
            Signal::Idle => SignalView::Idle,
            Signal::Lost => SignalView::Lost,
            Signal::User(message) => SignalView::User(message@),
        }
    }
}

/// What is to be done after a step, besides what the new state asks for.
#[derive(Debug, PartialEq, Eq)]
pub enum Effect {
    Nothing,
    /// Hand this event to the dashboard.
    Emit(Event),
    /// Send this request to the server.
    Send(UserMessage),
    /// Tell the operator that this request was not sent: there is no
    /// connection, and nothing is kept for later.
    Rejected(UserMessage),
}

/// What an [`Effect`] holds.
pub enum EffectView {
    Nothing,
    Emit(EventView),
    Send(UserMessageView),
    Rejected(UserMessageView),
}

impl View for Effect {
    type V = EffectView;

    open spec fn view(&self) -> EffectView {
        match self {
            Effect::Nothing => EffectView::Nothing,
            Effect::Emit(event) => EffectView::Emit(event@),
            Effect::Send(message) => EffectView::Send(message@),
            Effect::Rejected(message) => EffectView::Rejected(message@),
        }
    }
}

/// Where the subscription stands. `auth_key` is the credential in use;
/// a subscription to an open endpoint has none and never asks for one.
#[derive(Debug, PartialEq, Eq)]
pub enum SubscriptionState {
    /// Nothing happens until the operator supplies a credential.
    AwaitingCredentials,
    /// No connection. The next attempt is due in `retry_in` seconds.
    Disconnected { auth_key: Option<String>, retry_in: u64 },
    /// An attempt to open the stream is under way.
    Connecting { auth_key: Option<String> },
    /// The stream is open and snapshots arrive.
    Connected { auth_key: Option<String> },
}

/// What a [`SubscriptionState`] holds.
pub enum SubscriptionStateView {
    AwaitingCredentials,
    Disconnected { auth_key: Option<Seq<char>>, retry_in: u64 },
    Connecting { auth_key: Option<Seq<char>> },
    Connected { auth_key: Option<Seq<char>> },
}

impl View for SubscriptionState {
    type V = SubscriptionStateView;

    open spec fn view(&self) -> SubscriptionStateView {
        match self {
            SubscriptionState::AwaitingCredentials => SubscriptionStateView::AwaitingCredentials,
            SubscriptionState::Disconnected { auth_key, retry_in } =>
                SubscriptionStateView::Disconnected {
                    auth_key: auth_key.deep_view(),
                    retry_in: *retry_in,
                },
            SubscriptionState::Connecting { auth_key } => SubscriptionStateView::Connecting {
                auth_key: auth_key.deep_view(),
            },
            SubscriptionState::Connected { auth_key } => SubscriptionStateView::Connected {
                auth_key: auth_key.deep_view(),
            },
        }
    }
}

/// What whoever runs the subscription has to do in a state, before it
/// reports the next signal.
#[derive(Debug, PartialEq, Eq)]
pub enum Directive {
    /// Wait for the operator to supply a credential.
    AwaitCredential,
    /// Wait for `secs` seconds, then report that the retry is due.
    Wait { secs: u64 },
    /// Open the stream and fetch the queue, sending `authorization` as the
    /// authorization header if there is one.
    Connect { authorization: Option<String> },
    /// Read the stream and take the operator's requests.
    Listen,
}

/// What a [`Directive`] holds.
pub enum DirectiveView {
    AwaitCredential,
    Wait { secs: u64 },
    Connect { authorization: Option<Seq<char>> },
    Listen,
}

impl View for Directive {
    type V = DirectiveView;

    open spec fn view(&self) -> DirectiveView {
        match self {
            Directive::AwaitCredential => DirectiveView::AwaitCredential,
            Directive::Wait { secs } => DirectiveView::Wait { secs: *secs },
            Directive::Connect { authorization } => DirectiveView::Connect {
                authorization: authorization.deep_view(),
            },
            Directive::Listen => DirectiveView::Listen,
        }
    }
}

/// What is to be done in `state`.
pub open spec fn directive_of(state: SubscriptionStateView) -> DirectiveView {
    match state {
        SubscriptionStateView::AwaitingCredentials => DirectiveView::AwaitCredential,
        SubscriptionStateView::Disconnected { retry_in, .. } => DirectiveView::Wait {
            secs: retry_in,
        },
        SubscriptionStateView::Connecting { auth_key } => DirectiveView::Connect {
            authorization: match auth_key {
                Some(key) => Some(auth_header_of(key)),
                None => None,
            },
        },
        SubscriptionStateView::Connected { .. } => DirectiveView::Listen,
    }
}

/// The state and the event with which a subscription asks for a credential.
pub open spec fn ask_for_password() -> (SubscriptionStateView, EffectView) {
    (
        SubscriptionStateView::AwaitingCredentials,
        EffectView::Emit(EventView::AwaitingPassword { last_password_was_bad: true }),
    )
}

/// The state and the event with which a subscription falls back to retrying.
pub open spec fn fall_back(auth_key: Option<Seq<char>>) -> (SubscriptionStateView, EffectView) {
    (
        SubscriptionStateView::Disconnected { auth_key, retry_in: RETRY_DELAY_SECS },
        EffectView::Emit(EventView::EventStreamDisconnected(DisconnectReason::Other)),
    )
}

/// The rule of the subscription: the state and the effect that follow from
/// `state` when `signal` is reported.
///
/// A request of the operator goes out only while connected; in every other
/// state it is rejected and the state stays. Any other signal that a state
/// has no use for changes nothing.
pub open spec fn step_of(state: SubscriptionStateView, signal: SignalView) -> (
    SubscriptionStateView,
    EffectView,
) {
    match (state, signal) {
        (SubscriptionStateView::Connected { .. }, SignalView::User(message)) => (
            state,
            EffectView::Send(message),
        ),
        (_, SignalView::User(message)) => (state, EffectView::Rejected(message)),
        (SubscriptionStateView::AwaitingCredentials, SignalView::CredentialSupplied(key)) => (
            SubscriptionStateView::Connecting { auth_key: Some(key) },
            EffectView::Nothing,
        ),
        (SubscriptionStateView::Disconnected { auth_key, .. }, SignalView::RetryDue) => (
            SubscriptionStateView::Connecting { auth_key },
            EffectView::Nothing,
        ),
        (SubscriptionStateView::Connecting { auth_key }, SignalView::Opened(all_orders)) => (
            SubscriptionStateView::Connected { auth_key },
            EffectView::Emit(EventView::Connected { all_orders }),
        ),
        (
            SubscriptionStateView::Connecting { .. },
            SignalView::Refused(Refusal::Unauthorized),
        ) => ask_for_password(),
        (SubscriptionStateView::Connecting { auth_key }, SignalView::Refused(Refusal::Failed)) =>
            fall_back(auth_key),
        (SubscriptionStateView::Connecting { auth_key }, SignalView::Lost) => fall_back(auth_key),
        (SubscriptionStateView::Connected { .. }, SignalView::Received(event)) => (
            state,
            EffectView::Emit(EventView::MessageReceivedFromEventSource(event)),
        ),
        (SubscriptionStateView::Connected { auth_key }, SignalView::Lost) => fall_back(auth_key),
        (SubscriptionStateView::Connected { .. }, SignalView::Refused(Refusal::Unauthorized)) =>
            ask_for_password(),
        _ => (state, EffectView::Nothing),
    }
}

impl SubscriptionState {
    /// What whoever runs the subscription has to do now.
    pub fn directive(&self) -> (res: Directive)
        ensures
            res@ == directive_of(self@),
    {
        match self {
            SubscriptionState::AwaitingCredentials => Directive::AwaitCredential,
            SubscriptionState::Disconnected { auth_key: _, retry_in } => Directive::Wait {
                secs: *retry_in,
            },
            SubscriptionState::Connecting { auth_key } => Directive::Connect {
                authorization: match auth_key {
                    Some(key) => Some(build_auth_header(key.as_str())),
                    None => None,
                },
            },
            SubscriptionState::Connected { auth_key: _ } => Directive::Listen,
        }
    }

    /// Takes one step: the state and the effect that follow when `signal` is
    /// reported in this state.
    pub fn step(self, signal: Signal) -> (res: (SubscriptionState, Effect))
        ensures
            (res.0@, res.1@) == step_of(self@, signal@),
    {
        match signal {
            Signal::User(message) => handle_user_message(message, self),
            Signal::CredentialSupplied(key) => match self {
                SubscriptionState::AwaitingCredentials => (
                    SubscriptionState::Connecting { auth_key: Some(key) },
                    Effect::Nothing,
                ),
                _ => (self, Effect::Nothing),
            },
            Signal::RetryDue => match self {
                SubscriptionState::Disconnected { auth_key, retry_in: _ } => (
                    SubscriptionState::Connecting { auth_key },
                    Effect::Nothing,
                ),
                _ => (self, Effect::Nothing),
            },
            Signal::Opened(all_orders) => match self {
                SubscriptionState::Connecting { auth_key } => (
                    SubscriptionState::Connected { auth_key },
                    Effect::Emit(Event::Connected { all_orders }),
                ),
                _ => (self, Effect::Nothing),
            },
            Signal::Refused(refusal) => match self {
                SubscriptionState::Connecting { auth_key } => match refusal {
                    Refusal::Unauthorized => create_password_channel(),
                    Refusal::Failed => disconnected(auth_key),
                },
                SubscriptionState::Connected { auth_key } => match refusal {
                    Refusal::Unauthorized => create_password_channel(),
                    Refusal::Failed => (SubscriptionState::Connected { auth_key }, Effect::Nothing),
                },
                _ => (self, Effect::Nothing),
            },
            Signal::Received(event) => handle_received(Some(event), self),
            Signal::Idle => (self, Effect::Nothing),
            Signal::Lost => handle_received(None, self),
        }
    }
}

/// Starts a dashboard's subscription to the guarded endpoint. With a
/// credential at hand it is disconnected and the first attempt is due at
/// once; without one it asks for a credential first.
pub fn connect(cached: Option<String>) -> (res: (SubscriptionState, Effect))
    ensures
        (res.0@, res.1@) == (match cached {
            Some(key) => (
                SubscriptionStateView::Disconnected { auth_key: Some(key@), retry_in: 0 },
                EffectView::Nothing,
            ),
            None => ask_for_password(),
        }),
{
    match cached {
        Some(key) => (
            SubscriptionState::Disconnected { auth_key: Some(key), retry_in: 0 },
            Effect::Nothing,
        ),
        None => create_password_channel(),
    }
}

/// Asks the operator for a credential.
fn create_password_channel() -> (res: (SubscriptionState, Effect))
    ensures
        (res.0@, res.1@) == ask_for_password(),
{
    (
        SubscriptionState::AwaitingCredentials,
        Effect::Emit(Event::AwaitingPassword { last_password_was_bad: true }),
    )
}

/// Falls back to retrying with the credential in use.
fn disconnected(auth_key: Option<String>) -> (res: (SubscriptionState, Effect))
    ensures
        (res.0@, res.1@) == fall_back(auth_key.deep_view()),
{
    (
        SubscriptionState::Disconnected { auth_key, retry_in: RETRY_DELAY_SECS },
        Effect::Emit(Event::EventStreamDisconnected(DisconnectReason::Other)),
    )
}

/// What the stream's next item means: an event is passed on while connected,
/// and the end of the stream (`None`) sends a subscription that was connecting
/// or connected back to retrying.
fn handle_received(received: Option<SseEvent>, state: SubscriptionState) -> (res: (
    SubscriptionState,
    Effect,
))
    ensures
        (res.0@, res.1@) == step_of(
            state@,
            match received {
                Some(event) => SignalView::Received(event@),
                None => SignalView::Lost,
            },
        ),
{
    match received {
        Some(event) => match state {
            SubscriptionState::Connected { auth_key } => (
                SubscriptionState::Connected { auth_key },
                Effect::Emit(Event::MessageReceivedFromEventSource(event)),
            ),
            _ => (state, Effect::Nothing),
        },
        None => match state {
            SubscriptionState::Connecting { auth_key } => disconnected(auth_key),
            SubscriptionState::Connected { auth_key } => disconnected(auth_key),
            _ => (state, Effect::Nothing),
        },
    }
}

/// What becomes of a request of the operator: sent while connected, rejected
/// otherwise. The state stays as it is either way.
fn handle_user_message(message: UserMessage, state: SubscriptionState) -> (res: (
    SubscriptionState,
    Effect,
))
    ensures
        (res.0@, res.1@) == step_of(state@, SignalView::User(message@)),
{
    match state {
        SubscriptionState::Connected { auth_key } => (
            SubscriptionState::Connected { auth_key },
            Effect::Send(message),
        ),
        _ => (state, Effect::Rejected(message)),
    }
}

/// A request of the operator goes out if and only if the subscription is
/// connected. Otherwise it is rejected on the spot; nothing is kept for
/// later, and the state does not move either way.
pub proof fn lemma_requests_need_a_connection(state: SubscriptionStateView, message: UserMessageView)
    ensures
        step_of(state, SignalView::User(message)).0 == state,
        step_of(state, SignalView::User(message)).1 == if state is Connected {
            EffectView::Send(message)
        } else {
            EffectView::Rejected(message)
        },
{
}

/// The subscription never gives up. When the stream is lost or an attempt
/// fails for any reason but the credential, it is disconnected with the same
/// credential and a retry due after `RETRY_DELAY_SECS`; and when a retry is
/// due it connects again.
pub proof fn lemma_never_gives_up(auth_key: Option<Seq<char>>, retry_in: u64)
    ensures
        step_of(SubscriptionStateView::Connected { auth_key }, SignalView::Lost).0 == (
            SubscriptionStateView::Disconnected { auth_key, retry_in: RETRY_DELAY_SECS }),
        step_of(SubscriptionStateView::Connecting { auth_key }, SignalView::Lost).0 == (
            SubscriptionStateView::Disconnected { auth_key, retry_in: RETRY_DELAY_SECS }),
        step_of(
            SubscriptionStateView::Connecting { auth_key },
            SignalView::Refused(Refusal::Failed),
        ).0 == (SubscriptionStateView::Disconnected { auth_key, retry_in: RETRY_DELAY_SECS }),
        step_of(SubscriptionStateView::Disconnected { auth_key, retry_in }, SignalView::RetryDue).0
            == (SubscriptionStateView::Connecting { auth_key }),
{
}

/// A rejected credential is not retried: the subscription asks for a new one,
/// and connects once it is supplied.
pub proof fn lemma_bad_credential_asks_again(auth_key: Option<Seq<char>>, key: Seq<char>)
    ensures
        step_of(
            SubscriptionStateView::Connecting { auth_key },
            SignalView::Refused(Refusal::Unauthorized),
        ) == ask_for_password(),
        step_of(
            SubscriptionStateView::Connected { auth_key },
            SignalView::Refused(Refusal::Unauthorized),
        ) == ask_for_password(),
        step_of(SubscriptionStateView::AwaitingCredentials, SignalView::CredentialSupplied(key)).0
            == (SubscriptionStateView::Connecting { auth_key: Some(key) }),
{
}

/// While connected, every event of the stream reaches the dashboard as it
/// came, and the subscription stays connected.
pub proof fn lemma_events_pass_through(auth_key: Option<Seq<char>>, event: SseEventView)
    ensures
        step_of(SubscriptionStateView::Connected { auth_key }, SignalView::Received(event)) == (
            SubscriptionStateView::Connected { auth_key },
            EffectView::Emit(EventView::MessageReceivedFromEventSource(event)),
        ),
{
}

} // verus!
