use breaks_queue::models::{Breaks, Order, OrderWithJson, OrderWithOrder};
use breaks_queue::wix::{
    CustomField, NewOrder, OrderLineItem, OrderLineItemOption, OrderMediaItem, OrderNumber,
    TwitchUsernameError,
};

fn plain_order(number: i32) -> NewOrder {
    NewOrder { buyer_note: None, order_number: OrderNumber(number), line_items: vec![], custom_field: None }
}

fn plain_entry(number: i32) -> OrderWithOrder {
    OrderWithOrder { twitch_username: None, order_id: OrderNumber(number), order: plain_order(number) }
}

fn queue_of(numbers: &[i32]) -> Breaks {
    Breaks::from_ordered(numbers.iter().map(|n| plain_entry(*n)).collect())
}

fn ids(breaks: &Breaks) -> Vec<i32> {
    (0..breaks.len()).map(|i| breaks.get(i).order_id.get()).collect()
}

#[test]
fn twitch_username_reads_the_recognised_field() {
    let mut order = plain_order(1);
    order.custom_field = Some(CustomField {
        value: "alice".to_string(),
        title: "twitch username".to_string(),
    });
    assert_eq!(order.twitch_username(), Ok("alice".to_string()));
}

#[test]
fn twitch_username_rejects_another_title_and_keeps_the_value() {
    let mut order = plain_order(1);
    order.custom_field = Some(CustomField {
        value: "Please call when outside".to_string(),
        title: "Notes for delivery".to_string(),
    });
    assert_eq!(
        order.twitch_username(),
        Err(TwitchUsernameError::IncorrectTitleForCustomField("Please call when outside".to_string()))
    );
}

#[test]
fn twitch_username_title_is_matched_exactly() {
    let mut order = plain_order(1);
    order.custom_field = Some(CustomField {
        value: "alice".to_string(),
        title: "Twitch Username".to_string(),
    });
    assert_eq!(
        order.twitch_username(),
        Err(TwitchUsernameError::IncorrectTitleForCustomField("alice".to_string()))
    );
}

#[test]
fn twitch_username_needs_the_field() {
    assert_eq!(plain_order(1).twitch_username(), Err(TwitchUsernameError::CustomFieldNotPresent));
}

#[test]
fn entry_of_an_order_without_a_name_has_none() {
    let mut order = plain_order(10019);
    order.custom_field = Some(CustomField {
        value: "Please call when outside".to_string(),
        title: "Notes for delivery".to_string(),
    });
    let entry = OrderWithOrder::from_order(order.clone());
    assert_eq!(entry.twitch_username, None);
    assert_eq!(entry.order_id, OrderNumber(10019));
    assert_eq!(entry.order, order);
}

#[test]
fn clones_are_equal_in_depth() {
    let order = NewOrder {
        buyer_note: Some("ring twice".to_string()),
        order_number: OrderNumber::new(12),
        line_items: vec![OrderLineItem {
            index: Some(1),
            quantity: 2,
            name: "booster".to_string(),
            options: vec![OrderLineItemOption {
                option: "Promo Card".to_string(),
                selection: "Yes".to_string(),
            }],
            custom_text_fields: None,
            media_item: OrderMediaItem { alt_text: None, id: "a.jpg".to_string(), src: "wix:a".to_string() },
            notes: None,
        }],
        custom_field: None,
    };
    assert_eq!(order.clone(), order);
    let entry = OrderWithOrder::from_order(order);
    assert_eq!(entry.clone(), entry);
    let queue = Breaks::from_ordered(vec![entry]);
    assert_eq!(queue.clone(), queue);
}

#[test]
fn empty_queues_are_empty() {
    assert!(Breaks::empty().is_empty());
    assert!(Breaks::initialize().is_empty());
    assert!(Breaks::default().is_empty());
    assert_eq!(Breaks::empty().len(), 0);
    assert!(!queue_of(&[1]).is_empty());
}

#[test]
fn index_moves_swap_neighbours() {
    let mut queue = queue_of(&[1, 2, 3]);
    queue.move_up(2);
    assert_eq!(ids(&queue), vec![1, 3, 2]);
    queue.move_down(0);
    assert_eq!(ids(&queue), vec![3, 1, 2]);
    queue.move_up(1);
    assert_eq!(ids(&queue), vec![1, 3, 2]);
}

#[test]
fn complete_removes_the_entry_at_the_index() {
    let mut queue = queue_of(&[1, 2, 3]);
    queue.complete(1);
    assert_eq!(ids(&queue), vec![1, 3]);
    queue.complete(0);
    assert_eq!(ids(&queue), vec![3]);
}

#[test]
fn new_order_goes_to_the_back() {
    let mut queue = queue_of(&[1]);
    queue.new_order(plain_entry(2));
    assert_eq!(ids(&queue), vec![1, 2]);
}

#[test]
fn first_and_last_places_are_told_apart() {
    let queue = queue_of(&[1, 2, 3]);
    assert!(queue.idx_is_first(0));
    assert!(!queue.idx_is_first(1));
    assert!(queue.idx_is_last(2));
    assert!(!queue.idx_is_last(1));
    assert!(!queue.idx_is_last(3));
    assert!(!Breaks::empty().idx_is_last(0));
    assert!(!queue.idx_is_last(usize::MAX));
}

#[test]
fn remove_by_id_takes_every_entry_under_the_number() {
    let mut queue = queue_of(&[1, 2, 1, 3, 1]);
    queue.remove_by_id(OrderNumber(1));
    assert_eq!(ids(&queue), vec![2, 3]);
    queue.remove_by_id(OrderNumber(9));
    assert_eq!(ids(&queue), vec![2, 3]);
    queue.remove_by_id(OrderNumber(3));
    queue.remove_by_id(OrderNumber(2));
    assert!(queue.is_empty());
}

#[test]
fn get_mut_by_id_reaches_the_first_entry_under_the_number() {
    let mut queue = queue_of(&[1, 2, 2]);
    match queue.get_mut_by_id(OrderNumber(2)) {
        Some(entry) => entry.twitch_username = Some("bob".to_string()),
        None => panic!("order 2 is in the queue"),
    }
    assert_eq!(queue.get(0).twitch_username, None);
    assert_eq!(queue.get(1).twitch_username, Some("bob".to_string()));
    assert_eq!(queue.get(2).twitch_username, None);
    assert!(queue.get_mut_by_id(OrderNumber(5)).is_none());
}

#[test]
fn position_is_the_first_place() {
    let queue = queue_of(&[4, 5, 4]);
    assert_eq!(queue.position(OrderNumber(4)), Some(0));
    assert_eq!(queue.position(OrderNumber(5)), Some(1));
    assert_eq!(queue.position(OrderNumber(6)), None);
    assert!(queue.contains(OrderNumber(5)));
    assert!(!queue.contains(OrderNumber(6)));
}

#[test]
fn iter_walks_front_to_back_and_then_stops() {
    let queue = queue_of(&[7, 8]);
    let mut walk = queue.iter();
    assert_eq!(walk.next().map(|e| e.order_id), Some(OrderNumber(7)));
    assert_eq!(walk.next().map(|e| e.order_id), Some(OrderNumber(8)));
    assert!(walk.next().is_none());
    assert!(walk.next().is_none());
    assert!(Breaks::empty().iter().next().is_none());
}

#[test]
fn stored_order_becomes_a_queue_entry() {
    let stored = OrderWithJson {
        twitch_username: "alice".to_string(),
        order_id: OrderNumber(5),
        json: "{\"number\":5}".to_string(),
    };
    assert_eq!(stored.clone(), stored);
    assert_eq!(stored.summary(), Order { twitch_username: "alice".to_string(), order_id: OrderNumber(5) });
    let entry = stored.into_entry(plain_order(5));
    assert_eq!(entry.twitch_username, Some("alice".to_string()));
    assert_eq!(entry.order_id, OrderNumber(5));
    assert_eq!(entry.order, plain_order(5));
}

#[test]
fn order_number_wraps_its_value() {
    let number = OrderNumber::new(-3);
    assert_eq!(number.get(), -3);
    assert_eq!(number, OrderNumber(-3));
    assert!(OrderNumber(1) < OrderNumber(2));
}
