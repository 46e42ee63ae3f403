use breaks_queue::models::{Breaks, OrderWithOrder};
use breaks_queue::queue::{QueueError, QueueStore};
use breaks_queue::wix::{CustomField, NewOrder, OrderNumber};

fn order(number: i32, name: Option<&str>) -> NewOrder {
    NewOrder {
        buyer_note: None,
        order_number: OrderNumber(number),
        line_items: vec![],
        custom_field: name.map(|name| CustomField {
            value: name.to_string(),
            title: "twitch username".to_string(),
        }),
    }
}

fn entry(number: i32, name: Option<&str>) -> OrderWithOrder {
    OrderWithOrder {
        twitch_username: name.map(|name| name.to_string()),
        order_id: OrderNumber(number),
        order: order(number, name),
    }
}

fn numbers(breaks: &Breaks) -> Vec<i32> {
    let mut out = vec![];
    let mut walk = breaks.iter();
    while let Some(entry) = walk.next() {
        out.push(entry.order_id.get());
    }
    out
}

fn store_of(orders: &[i32]) -> QueueStore {
    let mut store = QueueStore::new();
    for number in orders {
        assert_eq!(store.append(order(*number, None), true), Ok(()));
    }
    store
}

#[test]
fn append_shows_order_with_its_display_name() {
    let mut store = QueueStore::new();
    assert_eq!(store.append(order(100, Some("alice")), true), Ok(()));
    let snapshot = store.snapshot();
    assert_eq!(snapshot, Breaks::from_ordered(vec![entry(100, Some("alice"))]));
    assert_eq!(snapshot.len(), 1);
    assert_eq!(snapshot.get(0).twitch_username, Some("alice".to_string()));
}

#[test]
fn second_append_of_same_order_is_a_duplicate() {
    let mut store = QueueStore::new();
    assert_eq!(store.append(order(100, None), true), Ok(()));
    assert_eq!(store.append(order(100, Some("late")), true), Err(QueueError::DuplicateOrder));
    assert_eq!(numbers(&store.snapshot()), vec![100]);
    assert_eq!(store.snapshot().get(0).twitch_username, None);
}

#[test]
fn duplicate_is_reported_before_a_failed_write() {
    let mut store = store_of(&[100]);
    assert_eq!(store.append(order(100, None), false), Err(QueueError::DuplicateOrder));
    assert_eq!(numbers(&store.snapshot()), vec![100]);
}

#[test]
fn move_up_swaps_with_predecessor() {
    let mut store = store_of(&[1, 2]);
    assert_eq!(store.move_up(OrderNumber(2)), Ok(()));
    assert_eq!(numbers(&store.snapshot()), vec![2, 1]);
}

#[test]
fn move_down_swaps_with_successor() {
    let mut store = store_of(&[1, 2, 3]);
    assert_eq!(store.move_down(OrderNumber(1)), Ok(()));
    assert_eq!(numbers(&store.snapshot()), vec![2, 1, 3]);
}

#[test]
fn remove_takes_the_entry_out() {
    let mut store = store_of(&[1, 2]);
    assert_eq!(store.remove(OrderNumber(1)), Ok(()));
    assert_eq!(numbers(&store.snapshot()), vec![2]);
}

#[test]
fn unwritten_order_does_not_enter_the_queue() {
    let mut store = store_of(&[1]);
    assert_eq!(store.append(order(2, None), false), Err(QueueError::PersistenceFailure));
    assert_eq!(numbers(&store.snapshot()), vec![1]);
    assert_eq!(store.append(order(2, None), true), Ok(()));
    assert_eq!(numbers(&store.snapshot()), vec![1, 2]);
}

#[test]
fn appends_never_leave_two_entries_under_one_number() {
    let mut store = QueueStore::new();
    let arrivals = [5, 3, 5, 9, 3, 3, 7, 9, 5];
    for number in arrivals {
        let _ = store.append(order(number, None), true);
    }
    let seen = numbers(&store.snapshot());
    assert_eq!(seen, vec![5, 3, 9, 7]);
    for (i, a) in seen.iter().enumerate() {
        for b in &seen[i + 1..] {
            assert_ne!(a, b);
        }
    }
}

#[test]
fn move_up_then_down_restores_the_order() {
    let mut store = store_of(&[10, 20, 30, 40]);
    let before = store.snapshot();
    assert_eq!(store.move_up(OrderNumber(30)), Ok(()));
    assert_eq!(numbers(&store.snapshot()), vec![10, 30, 20, 40]);
    assert_eq!(store.move_down(OrderNumber(30)), Ok(()));
    assert_eq!(store.snapshot(), before);
}

#[test]
fn move_down_then_up_restores_the_order() {
    let mut store = store_of(&[10, 20, 30, 40]);
    let before = store.snapshot();
    assert_eq!(store.move_down(OrderNumber(20)), Ok(()));
    assert_eq!(numbers(&store.snapshot()), vec![10, 30, 20, 40]);
    assert_eq!(store.move_up(OrderNumber(20)), Ok(()));
    assert_eq!(store.snapshot(), before);
}

#[test]
fn second_remove_finds_nothing_and_changes_nothing() {
    let mut store = store_of(&[1, 2, 3]);
    assert_eq!(store.remove(OrderNumber(2)), Ok(()));
    let after_first = store.snapshot();
    assert_eq!(store.remove(OrderNumber(2)), Err(QueueError::NotFound));
    assert_eq!(store.snapshot(), after_first);
    assert_eq!(numbers(&after_first), vec![1, 3]);
}

#[test]
fn first_cannot_move_up_and_last_cannot_move_down() {
    let mut store = store_of(&[1, 2, 3]);
    let before = store.snapshot();
    assert_eq!(store.move_up(OrderNumber(1)), Err(QueueError::BoundaryViolation));
    assert_eq!(store.snapshot(), before);
    assert_eq!(store.move_down(OrderNumber(3)), Err(QueueError::BoundaryViolation));
    assert_eq!(store.snapshot(), before);
}

#[test]
fn single_entry_is_both_first_and_last() {
    let mut store = store_of(&[8]);
    assert_eq!(store.move_up(OrderNumber(8)), Err(QueueError::BoundaryViolation));
    assert_eq!(store.move_down(OrderNumber(8)), Err(QueueError::BoundaryViolation));
    assert_eq!(numbers(&store.snapshot()), vec![8]);
}

#[test]
fn operations_on_an_absent_order_are_not_found() {
    let mut store = store_of(&[1, 2]);
    let before = store.snapshot();
    assert_eq!(store.remove(OrderNumber(7)), Err(QueueError::NotFound));
    assert_eq!(store.move_up(OrderNumber(7)), Err(QueueError::NotFound));
    assert_eq!(store.move_down(OrderNumber(7)), Err(QueueError::NotFound));
    assert_eq!(store.rename(OrderNumber(7), "x".to_string()), Err(QueueError::NotFound));
    assert_eq!(store.snapshot(), before);
}

#[test]
fn operations_on_an_empty_queue_are_not_found() {
    let mut store = QueueStore::new();
    assert_eq!(store.len(), 0);
    assert_eq!(store.remove(OrderNumber(1)), Err(QueueError::NotFound));
    assert_eq!(store.move_up(OrderNumber(1)), Err(QueueError::NotFound));
    assert_eq!(store.move_down(OrderNumber(1)), Err(QueueError::NotFound));
    assert!(store.snapshot().is_empty());
}

#[test]
fn rename_changes_the_name_and_nothing_else() {
    let mut store = QueueStore::new();
    assert_eq!(store.append(order(1, Some("alice")), true), Ok(()));
    assert_eq!(store.append(order(2, None), true), Ok(()));
    assert_eq!(store.rename(OrderNumber(2), "bob".to_string()), Ok(()));
    assert_eq!(store.rename(OrderNumber(1), "carol".to_string()), Ok(()));
    let snapshot = store.snapshot();
    assert_eq!(numbers(&snapshot), vec![1, 2]);
    assert_eq!(snapshot.get(0).twitch_username, Some("carol".to_string()));
    assert_eq!(snapshot.get(0).order, order(1, Some("alice")));
    assert_eq!(snapshot.get(1).twitch_username, Some("bob".to_string()));
    assert_eq!(snapshot.get(1).order, order(2, None));
}

#[test]
fn check_append_foretells_duplicates() {
    let store = store_of(&[4]);
    assert_eq!(store.check_append(&order(4, None)), Err(QueueError::DuplicateOrder));
    assert_eq!(store.check_append(&order(5, None)), Ok(()));
}

#[test]
fn position_and_len_follow_the_queue() {
    let store = store_of(&[4, 6, 8]);
    assert_eq!(store.len(), 3);
    assert_eq!(store.position(OrderNumber(4)), Some(0));
    assert_eq!(store.position(OrderNumber(8)), Some(2));
    assert_eq!(store.position(OrderNumber(5)), None);
}

#[test]
fn restore_keeps_stored_order_and_drops_repeats() {
    let records = vec![
        entry(3, Some("c")),
        entry(1, None),
        entry(3, Some("again")),
        entry(2, Some("b")),
        entry(1, Some("again")),
    ];
    let store = QueueStore::restore(&records);
    let snapshot = store.snapshot();
    assert_eq!(numbers(&snapshot), vec![3, 1, 2]);
    assert_eq!(snapshot.get(0).twitch_username, Some("c".to_string()));
    assert_eq!(snapshot.get(1).twitch_username, None);
}

#[test]
fn restore_of_distinct_records_is_those_records() {
    let records = vec![entry(9, None), entry(8, Some("h")), entry(7, None)];
    let store = QueueStore::restore(&records);
    assert_eq!(store.snapshot(), Breaks::from_ordered(records));
    assert!(QueueStore::restore(&vec![]).snapshot().is_empty());
}

#[test]
fn snapshot_is_a_copy() {
    let mut store = store_of(&[1, 2]);
    let before = store.snapshot();
    assert_eq!(store.remove(OrderNumber(1)), Ok(()));
    assert_eq!(numbers(&before), vec![1, 2]);
    assert_eq!(numbers(&store.snapshot()), vec![2]);
}
