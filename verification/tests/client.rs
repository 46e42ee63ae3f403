use breaks_queue::client::{
    connect, Directive, DisconnectReason, Effect, Event, Refusal, Signal, SubscriptionState,
    UserMessage, RETRY_DELAY_SECS,
};
use breaks_queue::dashboard::{AppState, Command, Dashboard, InnerAppMessage};
use breaks_queue::widget::{Message, Widget};
use breaks_queue::models::{Breaks, OrderWithOrder, SseEvent};
use breaks_queue::wix::{NewOrder, OrderNumber};

fn record(number: i32) -> OrderWithOrder {
    OrderWithOrder {
        twitch_username: None,
        order_id: OrderNumber(number),
        order: NewOrder { buyer_note: None, order_number: OrderNumber(number), line_items: vec![], custom_field: None },
    }
}

fn queue(numbers: &[i32]) -> Breaks {
    Breaks::from_ordered(numbers.iter().map(|n| record(*n)).collect())
}

fn key() -> Option<String> {
    Some("secret".to_string())
}

fn connected_dashboard(numbers: &[i32]) -> Dashboard {
    let mut dashboard = Dashboard::new();
    let command = dashboard.update(InnerAppMessage::EventSourceEvent(Event::Connected {
        all_orders: numbers.iter().map(|n| record(*n)).collect(),
    }));
    assert_eq!(command, Command::Relay);
    dashboard
}

#[test]
fn open_subscription_starts_disconnected_and_due_at_once() {
    let state = breaks_queue::widget::connect();
    assert_eq!(state, SubscriptionState::Disconnected { auth_key: None, retry_in: 0 });
    assert_eq!(state.directive(), Directive::Wait { secs: 0 });
}

#[test]
fn guarded_subscription_without_a_key_asks_for_one() {
    let (state, effect) = connect(None);
    assert_eq!(state, SubscriptionState::AwaitingCredentials);
    assert_eq!(effect, Effect::Emit(Event::AwaitingPassword { last_password_was_bad: true }));
    assert_eq!(state.directive(), Directive::AwaitCredential);
}

#[test]
fn guarded_subscription_with_a_key_starts_disconnected() {
    let (state, effect) = connect(key());
    assert_eq!(state, SubscriptionState::Disconnected { auth_key: key(), retry_in: 0 });
    assert_eq!(effect, Effect::Nothing);
}

#[test]
fn supplied_credential_leads_to_connecting() {
    let (state, effect) =
        SubscriptionState::AwaitingCredentials.step(Signal::CredentialSupplied("secret".to_string()));
    assert_eq!(state, SubscriptionState::Connecting { auth_key: key() });
    assert_eq!(effect, Effect::Nothing);
}

#[test]
fn connecting_sends_the_encoded_credential() {
    let state = SubscriptionState::Connecting { auth_key: key() };
    assert_eq!(
        state.directive(),
        Directive::Connect { authorization: Some("dG9raW9kcmVhbXk6c2VjcmV0".to_string()) }
    );
    let open = SubscriptionState::Connecting { auth_key: None };
    assert_eq!(open.directive(), Directive::Connect { authorization: None });
}

#[test]
fn retry_due_leads_to_connecting() {
    let (state, effect) =
        SubscriptionState::Disconnected { auth_key: key(), retry_in: 1 }.step(Signal::RetryDue);
    assert_eq!(state, SubscriptionState::Connecting { auth_key: key() });
    assert_eq!(effect, Effect::Nothing);
}

#[test]
fn opened_stream_connects_and_reports_the_queue() {
    let (state, effect) =
        SubscriptionState::Connecting { auth_key: key() }.step(Signal::Opened(vec![record(1), record(2)]));
    assert_eq!(state, SubscriptionState::Connected { auth_key: key() });
    assert_eq!(effect, Effect::Emit(Event::Connected { all_orders: vec![record(1), record(2)] }));
    assert_eq!(state.directive(), Directive::Listen);
}

#[test]
fn failed_attempt_falls_back_to_retrying() {
    for signal in [Signal::Refused(Refusal::Failed), Signal::Lost] {
        let (state, effect) = SubscriptionState::Connecting { auth_key: key() }.step(signal);
        assert_eq!(state, SubscriptionState::Disconnected { auth_key: key(), retry_in: RETRY_DELAY_SECS });
        assert_eq!(effect, Effect::Emit(Event::EventStreamDisconnected(DisconnectReason::Other)));
        assert_eq!(state.directive(), Directive::Wait { secs: 1 });
    }
}

#[test]
fn rejected_credential_asks_for_a_new_one() {
    let (state, effect) =
        SubscriptionState::Connecting { auth_key: key() }.step(Signal::Refused(Refusal::Unauthorized));
    assert_eq!(state, SubscriptionState::AwaitingCredentials);
    assert_eq!(effect, Effect::Emit(Event::AwaitingPassword { last_password_was_bad: true }));
    let (state, _) =
        SubscriptionState::Connected { auth_key: key() }.step(Signal::Refused(Refusal::Unauthorized));
    assert_eq!(state, SubscriptionState::AwaitingCredentials);
}

#[test]
fn lost_stream_is_retried_for_ever() {
    let mut state = breaks_queue::widget::connect();
    for _ in 0..50 {
        let (next, _) = state.step(Signal::RetryDue);
        assert_eq!(next, SubscriptionState::Connecting { auth_key: None });
        let (next, _) = next.step(Signal::Opened(vec![]));
        assert_eq!(next, SubscriptionState::Connected { auth_key: None });
        let (next, effect) = next.step(Signal::Lost);
        assert_eq!(next, SubscriptionState::Disconnected { auth_key: None, retry_in: 1 });
        assert_eq!(effect, Effect::Emit(Event::EventStreamDisconnected(DisconnectReason::Other)));
        state = next;
    }
}

#[test]
fn received_event_is_passed_on() {
    let (state, effect) = SubscriptionState::Connected { auth_key: None }
        .step(Signal::Received(SseEvent::BreaksUpdated(queue(&[2]))));
    assert_eq!(state, SubscriptionState::Connected { auth_key: None });
    assert_eq!(
        effect,
        Effect::Emit(Event::MessageReceivedFromEventSource(SseEvent::BreaksUpdated(queue(&[2]))))
    );
}

#[test]
fn idle_signal_changes_nothing() {
    let (state, effect) = SubscriptionState::Connected { auth_key: key() }.step(Signal::Idle);
    assert_eq!(state, SubscriptionState::Connected { auth_key: key() });
    assert_eq!(effect, Effect::Nothing);
}

#[test]
fn request_is_sent_only_while_connected() {
    let message = UserMessage::BreakCompleted(OrderNumber(3));
    let (state, effect) =
        SubscriptionState::Connected { auth_key: key() }.step(Signal::User(message.clone()));
    assert_eq!(state, SubscriptionState::Connected { auth_key: key() });
    assert_eq!(effect, Effect::Send(message.clone()));
    let others = [
        SubscriptionState::AwaitingCredentials,
        SubscriptionState::Disconnected { auth_key: key(), retry_in: 1 },
        SubscriptionState::Connecting { auth_key: key() },
    ];
    for state in others {
        let expected = match &state {
            SubscriptionState::AwaitingCredentials => SubscriptionState::AwaitingCredentials,
            SubscriptionState::Disconnected { .. } => SubscriptionState::Disconnected { auth_key: key(), retry_in: 1 },
            _ => SubscriptionState::Connecting { auth_key: key() },
        };
        let (next, effect) = state.step(Signal::User(message.clone()));
        assert_eq!(next, expected);
        assert_eq!(effect, Effect::Rejected(message.clone()));
    }
}

#[test]
fn signals_out_of_place_change_nothing() {
    let (state, effect) = SubscriptionState::AwaitingCredentials.step(Signal::RetryDue);
    assert_eq!((state, effect), (SubscriptionState::AwaitingCredentials, Effect::Nothing));
    let (state, effect) = SubscriptionState::Disconnected { auth_key: None, retry_in: 1 }
        .step(Signal::Received(SseEvent::BreaksUpdated(queue(&[]))));
    assert_eq!(state, SubscriptionState::Disconnected { auth_key: None, retry_in: 1 });
    assert_eq!(effect, Effect::Nothing);
    let (state, effect) =
        SubscriptionState::Connected { auth_key: key() }.step(Signal::CredentialSupplied("x".to_string()));
    assert_eq!((state, effect), (SubscriptionState::Connected { auth_key: key() }, Effect::Nothing));
    let (state, effect) =
        SubscriptionState::Connected { auth_key: key() }.step(Signal::Refused(Refusal::Failed));
    assert_eq!((state, effect), (SubscriptionState::Connected { auth_key: key() }, Effect::Nothing));
    let (state, effect) = SubscriptionState::Disconnected { auth_key: None, retry_in: 1 }.step(Signal::Lost);
    assert_eq!(state, SubscriptionState::Disconnected { auth_key: None, retry_in: 1 });
    assert_eq!(effect, Effect::Nothing);
    let (state, effect) = SubscriptionState::Connected { auth_key: None }.step(Signal::Opened(vec![]));
    assert_eq!((state, effect), (SubscriptionState::Connected { auth_key: None }, Effect::Nothing));
}

#[test]
fn request_paths_name_operation_and_order() {
    assert_eq!(UserMessage::BreakCompleted(OrderNumber(10019)).path(), "/order_completed/10019");
    assert_eq!(UserMessage::MoveUp(OrderNumber(7)).path(), "/move_up/7");
    assert_eq!(UserMessage::MoveDown(OrderNumber(0)).path(), "/move_down/0");
    assert_eq!(UserMessage::Rename(OrderNumber(-4), "bob".to_string()).path(), "/update_order/-4");
    assert_eq!(UserMessage::Rename(OrderNumber(5), "bob".to_string()).order_number(), OrderNumber(5));
}

#[test]
fn dashboard_starts_empty_and_disconnected() {
    let dashboard = Dashboard::new();
    assert!(dashboard.breaks().is_empty());
    assert_eq!(dashboard.state(), AppState::Disconnected);
    assert_eq!(AppState::default(), AppState::Disconnected);
}

#[test]
fn connected_event_sets_queue_and_state() {
    let dashboard = connected_dashboard(&[1, 2]);
    assert_eq!(dashboard.state(), AppState::Connected);
    assert_eq!(*dashboard.breaks(), queue(&[1, 2]));
}

#[test]
fn received_snapshot_replaces_the_local_queue() {
    let mut dashboard = connected_dashboard(&[1, 2, 3]);
    let command = dashboard.update(InnerAppMessage::EventSourceEvent(
        Event::MessageReceivedFromEventSource(SseEvent::BreaksUpdated(queue(&[9]))),
    ));
    assert_eq!(command, Command::Relay);
    assert_eq!(*dashboard.breaks(), queue(&[9]));
    assert_eq!(dashboard.state(), AppState::Connected);
    let command = dashboard.update(InnerAppMessage::EventSourceEvent(
        Event::MessageReceivedFromEventSource(SseEvent::BreaksUpdated(queue(&[9]))),
    ));
    assert_eq!(command, Command::Relay);
    assert_eq!(*dashboard.breaks(), queue(&[9]));
}

#[test]
fn requests_are_applied_and_sent_while_connected() {
    let mut dashboard = connected_dashboard(&[1, 2, 3]);
    assert_eq!(
        dashboard.update(InnerAppMessage::MoveUp(2)),
        Command::RelayAndSend(UserMessage::MoveUp(OrderNumber(3)))
    );
    assert_eq!(*dashboard.breaks(), queue(&[1, 3, 2]));
    assert_eq!(
        dashboard.update(InnerAppMessage::MoveDown(0)),
        Command::RelayAndSend(UserMessage::MoveDown(OrderNumber(1)))
    );
    assert_eq!(*dashboard.breaks(), queue(&[3, 1, 2]));
    assert_eq!(
        dashboard.update(InnerAppMessage::BreakCompleted(0)),
        Command::RelayAndSend(UserMessage::BreakCompleted(OrderNumber(3)))
    );
    assert_eq!(*dashboard.breaks(), queue(&[1, 2]));
}

#[test]
fn requests_fail_at_once_while_disconnected() {
    let mut dashboard = connected_dashboard(&[1, 2]);
    assert_eq!(
        dashboard.update(InnerAppMessage::EventSourceEvent(Event::EventStreamDisconnected(DisconnectReason::Other))),
        Command::Nothing
    );
    assert_eq!(dashboard.state(), AppState::Disconnected);
    for message in [InnerAppMessage::BreakCompleted(0), InnerAppMessage::MoveUp(1), InnerAppMessage::MoveDown(0)] {
        assert_eq!(dashboard.update(message), Command::Rejected);
        assert_eq!(*dashboard.breaks(), queue(&[1, 2]));
    }
}

#[test]
fn requests_at_the_edges_are_rejected() {
    let mut dashboard = connected_dashboard(&[1, 2]);
    for message in [
        InnerAppMessage::MoveUp(0),
        InnerAppMessage::MoveDown(1),
        InnerAppMessage::MoveUp(2),
        InnerAppMessage::MoveDown(usize::MAX),
        InnerAppMessage::BreakCompleted(2),
    ] {
        assert_eq!(dashboard.update(message), Command::Rejected);
        assert_eq!(*dashboard.breaks(), queue(&[1, 2]));
    }
    let mut empty = connected_dashboard(&[]);
    assert_eq!(empty.update(InnerAppMessage::MoveDown(0)), Command::Rejected);
    assert_eq!(empty.update(InnerAppMessage::BreakCompleted(0)), Command::Rejected);
}

#[test]
fn notices_leave_the_dashboard_alone() {
    let mut dashboard = connected_dashboard(&[1]);
    for message in [InnerAppMessage::MessageSent, InnerAppMessage::Connected, InnerAppMessage::Disconnected] {
        assert_eq!(dashboard.update(message), Command::Nothing);
        assert_eq!(dashboard.state(), AppState::Connected);
        assert_eq!(*dashboard.breaks(), queue(&[1]));
    }
    assert_eq!(
        dashboard.update(InnerAppMessage::EventSourceEvent(Event::AwaitingPassword { last_password_was_bad: true })),
        Command::Nothing
    );
    assert_eq!(dashboard.state(), AppState::Disconnected);
    assert_eq!(*dashboard.breaks(), queue(&[1]));
}

#[test]
fn widget_shows_what_it_was_last_told() {
    let mut widget = Widget::new();
    assert!(widget.breaks().is_empty());
    widget.update(Message::NewState(queue(&[4, 5])));
    assert_eq!(*widget.breaks(), queue(&[4, 5]));
    widget.update(Message::NewState(queue(&[])));
    assert!(widget.breaks().is_empty());
}
