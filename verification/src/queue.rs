//! The store that owns the queue and is the only one to change it.
//!
//! Every operation either leaves the queue as it was and says why, or applies
//! one whole change. No two entries of the store's queue are ever filed under
//! one order number.

use vstd::prelude::*;
use crate::models::{
    distinct_orders, holds_order, is_first_position, swapped, Breaks, OrderWithOrder,
    OrderWithOrderView,
};
use crate::wix::{NewOrder, NewOrderView, OrderNumber};

verus! {

/// Why the store refused an operation.
#[derive(Debug, Copy, Clone, PartialEq, Eq, Structural)]
pub enum QueueError {
    /// The order is in the queue already; a redelivery changes nothing.
    DuplicateOrder,
    /// No entry is filed under the order number given.
    NotFound,
    /// The entry is first and was to move up, or last and was to move down.
    BoundaryViolation,
    /// The durable write that the operation depends on failed.
    PersistenceFailure,
}

/// The place in `q` of the entry filed under `id`; meaningful where `q` holds one.
pub open spec fn position_of(q: Seq<OrderWithOrderView>, id: int) -> int {
    choose|i: int| is_first_position(q, id, i)
}

/// What `append` makes of the queue `q`, and what it answers.
pub open spec fn append_of(q: Seq<OrderWithOrderView>, order: NewOrderView, persisted: bool) -> (
    Seq<OrderWithOrderView>,
    Result<(), QueueError>,
) {
    if holds_order(q, order.order_number) {
        (q, Err(QueueError::DuplicateOrder))
    } else if !persisted {
        (q, Err(QueueError::PersistenceFailure))
    } else {
        (q.push(OrderWithOrderView::of_order(order)), Ok(()))
    }
}

/// What `remove` makes of the queue `q`, and what it answers.
pub open spec fn remove_of(q: Seq<OrderWithOrderView>, id: int) -> (
    Seq<OrderWithOrderView>,
    Result<(), QueueError>,
) {
    if !holds_order(q, id) {
        (q, Err(QueueError::NotFound))
    } else {
        (q.remove(position_of(q, id)), Ok(()))
    }
}

/// What `move_up` makes of the queue `q`, and what it answers.
pub open spec fn move_up_of(q: Seq<OrderWithOrderView>, id: int) -> (
    Seq<OrderWithOrderView>,
    Result<(), QueueError>,
) {
    if !holds_order(q, id) {
        (q, Err(QueueError::NotFound))
    } else if position_of(q, id) == 0 {
        (q, Err(QueueError::BoundaryViolation))
    } else {
        (swapped(q, position_of(q, id), position_of(q, id) - 1), Ok(()))
    }
}

/// What `move_down` makes of the queue `q`, and what it answers.
pub open spec fn move_down_of(q: Seq<OrderWithOrderView>, id: int) -> (
    Seq<OrderWithOrderView>,
    Result<(), QueueError>,
) {
    if !holds_order(q, id) {
        (q, Err(QueueError::NotFound))
    } else if position_of(q, id) == q.len() - 1 {
        (q, Err(QueueError::BoundaryViolation))
    } else {
        (swapped(q, position_of(q, id), position_of(q, id) + 1), Ok(()))
    }
}

/// What `rename` makes of the queue `q`, and what it answers.
pub open spec fn rename_of(q: Seq<OrderWithOrderView>, id: int, name: Seq<char>) -> (
    Seq<OrderWithOrderView>,
    Result<(), QueueError>,
) {
    if !holds_order(q, id) {
        (q, Err(QueueError::NotFound))
    } else {
        (q.update(position_of(q, id), q[position_of(q, id)].renamed(name)), Ok(()))
    }
}

/// The first entry filed under a number is at exactly one place.
pub proof fn lemma_position_of(q: Seq<OrderWithOrderView>, id: int, i: int)
    requires
        is_first_position(q, id, i),
    ensures
        holds_order(q, id),
        position_of(q, id) == i,
{
    let p = position_of(q, id);
    if p < i {
    } else if i < p {
    }
}

/// Where a queue holds an order, `position_of` finds its first entry.
pub proof fn lemma_position_of_held(q: Seq<OrderWithOrderView>, id: int)
    requires
        holds_order(q, id),
    ensures
        is_first_position(q, id, position_of(q, id)),
{
    let k = choose|k: int| 0 <= k < q.len() && (#[trigger] q[k]).order_id == id;
    lemma_first_position_exists(q, id, k);
}

proof fn lemma_first_position_exists(q: Seq<OrderWithOrderView>, id: int, k: int)
    requires
        0 <= k < q.len(),
        q[k].order_id == id,
    ensures
        exists|i: int| is_first_position(q, id, i),
    decreases k,
{
    if forall|j: int| 0 <= j < k ==> (#[trigger] q[j]).order_id != id {
        assert(is_first_position(q, id, k));
    } else {
        let j = choose|j: int| 0 <= j < k && (#[trigger] q[j]).order_id == id;
        lemma_first_position_exists(q, id, j);
    }
}

/// The queue that `orders` leave behind when they are appended one after the
/// other to `q`, each one written durably.
pub open spec fn append_all(q: Seq<OrderWithOrderView>, orders: Seq<NewOrderView>) -> Seq<
    OrderWithOrderView,
>
    decreases orders.len(),
{
    if orders.len() == 0 {
        q
    } else {
        append_of(append_all(q, orders.drop_last()), orders.last(), true).0
    }
}

/// Appending never files two entries under one number, whether or not the
/// write went through and whether or not the order was there before.
pub proof fn lemma_append_keeps_distinct(
    q: Seq<OrderWithOrderView>,
    order: NewOrderView,
    persisted: bool,
)
    requires
        distinct_orders(q),
    ensures
        distinct_orders(append_of(q, order, persisted).0),
{
}

/// Whatever orders are appended, in whatever sequence and with whatever
/// repetitions, the queue that results holds no order number twice.
pub proof fn lemma_appends_never_duplicate(q: Seq<OrderWithOrderView>, orders: Seq<NewOrderView>)
    requires
        distinct_orders(q),
    ensures
        distinct_orders(append_all(q, orders)),
    decreases orders.len(),
{
    if orders.len() > 0 {
        lemma_appends_never_duplicate(q, orders.drop_last());
    }
}

/// An order that is appended a second time is refused as a duplicate, and the
/// queue stays as the first append left it.
pub proof fn lemma_append_twice(q: Seq<OrderWithOrderView>, order: NewOrderView, persisted: bool)
    requires
        append_of(q, order, true).1 is Ok,
    ensures
        append_of(append_of(q, order, true).0, order, persisted) == (
            append_of(q, order, true).0,
            Err::<(), QueueError>(QueueError::DuplicateOrder),
        ),
{
    let after = append_of(q, order, true).0;
    assert(after[q.len() as int].order_id == order.order_number);
}

/// Moving an entry up and then down again restores the queue.
pub proof fn lemma_move_up_then_down(q: Seq<OrderWithOrderView>, id: int)
    requires
        move_up_of(q, id).1 is Ok,
    ensures
        move_down_of(move_up_of(q, id).0, id) == (q, Ok::<(), QueueError>(())),
{
    lemma_position_of_held(q, id);
    let i = position_of(q, id);
    lemma_position_of(swapped(q, i, i - 1), id, i - 1);
}

/// Moving an entry down and then up again restores the queue.
pub proof fn lemma_move_down_then_up(q: Seq<OrderWithOrderView>, id: int)
    requires
        distinct_orders(q),
        move_down_of(q, id).1 is Ok,
    ensures
        move_up_of(move_down_of(q, id).0, id) == (q, Ok::<(), QueueError>(())),
{
    lemma_position_of_held(q, id);
    let i = position_of(q, id);
    assert(is_first_position(swapped(q, i, i + 1), id, i + 1));
}

/// Once an order has been removed, removing it again answers `NotFound` and
/// changes nothing.
pub proof fn lemma_remove_twice(q: Seq<OrderWithOrderView>, id: int)
    requires
        distinct_orders(q),
    ensures
        remove_of(remove_of(q, id).0, id) == (
            remove_of(q, id).0,
            Err::<(), QueueError>(QueueError::NotFound),
        ),
{
    if holds_order(q, id) {
        lemma_position_of_held(q, id);
        let rest = q.remove(position_of(q, id));
        assert(forall|j: int| 0 <= j < rest.len() ==> (#[trigger] rest[j]).order_id != id);
    }
}

/// The first entry cannot move up: the answer is `BoundaryViolation` and the
/// queue is unchanged.
pub proof fn lemma_first_cannot_move_up(q: Seq<OrderWithOrderView>)
    requires
        q.len() > 0,
    ensures
        move_up_of(q, q.first().order_id) == (
            q,
            Err::<(), QueueError>(QueueError::BoundaryViolation),
        ),
{
    lemma_position_of(q, q[0].order_id, 0);
}

/// The last entry cannot move down: the answer is `BoundaryViolation` and the
/// queue is unchanged.
pub proof fn lemma_last_cannot_move_down(q: Seq<OrderWithOrderView>)
    requires
        distinct_orders(q),
        q.len() > 0,
    ensures
        move_down_of(q, q.last().order_id) == (
            q,
            Err::<(), QueueError>(QueueError::BoundaryViolation),
        ),
{
    assert(is_first_position(q, q.last().order_id, q.len() - 1));
}

/// Every operation of the store keeps order numbers distinct.
pub proof fn lemma_operations_keep_distinct(q: Seq<OrderWithOrderView>, id: int, name: Seq<char>)
    requires
        distinct_orders(q),
    ensures
        distinct_orders(remove_of(q, id).0),
        distinct_orders(move_up_of(q, id).0),
        distinct_orders(move_down_of(q, id).0),
        distinct_orders(rename_of(q, id, name).0),
{
    if holds_order(q, id) {
        lemma_position_of_held(q, id);
        assert(distinct_orders(q.remove(position_of(q, id))));
    }
}

/// The queue that stored records make when they are loaded in the order in
/// which they were stored: each record joins at the back, unless a record
/// under its number is there already.
pub open spec fn restored(records: Seq<OrderWithOrderView>) -> Seq<OrderWithOrderView>
    decreases records.len(),
{
    if records.len() == 0 {
        records
    } else {
        let before = restored(records.drop_last());
        if holds_order(before, records.last().order_id) {
            before
        } else {
            before.push(records.last())
        }
    }
}

/// Loading keeps order numbers distinct, and where the stored records are
/// distinct to begin with, the queue is those records as they stand.
pub proof fn lemma_restored(records: Seq<OrderWithOrderView>)
    ensures
        distinct_orders(restored(records)),
        forall|id: int| holds_order(restored(records), id) <==> holds_order(records, id),
        distinct_orders(records) ==> restored(records) == records,
    decreases records.len(),
{
    if records.len() > 0 {
        let front = records.drop_last();
        lemma_restored(front);
        assert forall|id: int| holds_order(restored(records), id) <==> holds_order(
            records,
            id,
        ) by {
            lemma_restored_holds(records, id);
        }
        if distinct_orders(records) && holds_order(front, records.last().order_id) {
            let k = choose|k: int| 0 <= k < front.len() && (#[trigger] front[k]).order_id
                == records.last().order_id;
            assert(records[k].order_id == records[records.len() - 1].order_id);
        }
    }
}

/// One step of `lemma_restored`: loading one more record adds its number to
/// the numbers held, and no other.
proof fn lemma_restored_holds(records: Seq<OrderWithOrderView>, id: int)
    requires
        records.len() > 0,
        holds_order(restored(records.drop_last()), id) <==> holds_order(records.drop_last(), id),
    ensures
        holds_order(restored(records), id) <==> holds_order(records, id),
{
    let front = records.drop_last();
    let before = restored(front);
    let after = restored(records);
    if holds_order(records, id) {
        let k = choose|k: int| 0 <= k < records.len() && (#[trigger] records[k]).order_id == id;
        if k < front.len() {
            assert(front[k].order_id == id);
            let j = choose|j: int| 0 <= j < before.len() && (#[trigger] before[j]).order_id == id;
            assert(after[j].order_id == id);
        } else if !holds_order(before, id) {
            assert(after[before.len() as int].order_id == id);
        }
    }
    if holds_order(after, id) {
        let j = choose|j: int| 0 <= j < after.len() && (#[trigger] after[j]).order_id == id;
        if j < before.len() {
            assert(before[j].order_id == id);
            let k = choose|k: int| 0 <= k < front.len() && (#[trigger] front[k]).order_id == id;
            assert(records[k].order_id == id);
        } else {
            assert(records[records.len() - 1].order_id == id);
        }
    }
}

/// The authoritative queue. It hands out copies of itself and changes only
/// through the operations below.
pub struct QueueStore {
    breaks: Breaks,
}

impl View for QueueStore {
    type V = Seq<OrderWithOrderView>;

    closed spec fn view(&self) -> Seq<OrderWithOrderView> {
        self.breaks@
    }
}

impl QueueStore {
    #[verifier::type_invariant]
    spec fn no_order_twice(self) -> bool {
        distinct_orders(self.breaks@)
    }

    /// Lends the queue out, leaving an empty one behind until `put` returns it.
    fn take(&mut self) -> (res: Breaks)
        ensures
            res@ == old(self)@,
            distinct_orders(res@),
    {
        proof {
            use_type_invariant(&*self);
        }
        let mut breaks = Breaks::empty();
        core::mem::swap(&mut self.breaks, &mut breaks);
        breaks
    }

    fn put(&mut self, breaks: Breaks)
        requires
            distinct_orders(breaks@),
        ensures
            final(self)@ == breaks@,
    {
        let mut breaks = breaks;
        core::mem::swap(&mut self.breaks, &mut breaks);
    }

    /// A store with an empty queue.
    pub fn new() -> (res: QueueStore)
        ensures
            res@ == Seq::<OrderWithOrderView>::empty(),
    {
        QueueStore { breaks: Breaks::initialize() }
    }

    /// The store that a server starts with when `records` are what it finds
    /// stored, in the order in which they were stored.
    pub fn restore(records: &Vec<OrderWithOrder>) -> (res: QueueStore)
        ensures
            res@ == restored(records.deep_view()),
    {
        let ghost all = records.deep_view();
        let mut breaks = Breaks::empty();
        let mut done: usize = 0;
        while done < records.len()
            invariant
                done <= records@.len(),
                all == records.deep_view(),
                breaks@ == restored(all.take(done as int)),
                distinct_orders(breaks@),
            decreases records@.len() - done,
        {
            proof {
                assert(all.take(done + 1).drop_last() =~= all.take(done as int));
            }
            if !breaks.contains(records[done].order_id) {
                breaks.new_order(records[done].clone());
            }
            done = done + 1;
        }
        assert(all.take(done as int) =~= all);
        QueueStore { breaks }
    }

    /// The number of entries in the queue.
    pub fn len(&self) -> (res: usize)
        ensures
            res == self@.len(),
    {
        self.breaks.len()
    }

    /// The place of the entry filed under `order_number`, if there is one.
    pub fn position(&self, order_number: OrderNumber) -> (res: Option<usize>)
        ensures
            match res {
                Some(idx) => holds_order(self@, order_number@) && idx < self@.len() && idx
                    == position_of(self@, order_number@),
                None => !holds_order(self@, order_number@),
            },
    {
        let res = self.breaks.position(order_number);
        res
    }

    /// A copy of the queue as it stands.
    pub fn snapshot(&self) -> (res: Breaks)
        ensures
            res@ == self@,
            distinct_orders(res@),
    {
        proof {
            use_type_invariant(self);
        }
        self.breaks.clone()
    }

    /// Whether `append` would take `payload`: it would not if the queue holds
    /// the order already. To be asked before the order is written durably.
    pub fn check_append(&self, payload: &NewOrder) -> (res: Result<(), QueueError>)
        ensures
            res == if holds_order(self@, payload@.order_number) {
                Err::<(), QueueError>(QueueError::DuplicateOrder)
            } else {
                Ok::<(), QueueError>(())
            },
    {
        if self.breaks.contains(payload.order_number) {
            Err(QueueError::DuplicateOrder)
        } else {
            Ok(())
        }
    }

    /// Accepts a new order at the back of the queue. `persisted` says whether
    /// the durable write of this order succeeded; an order that was not
    /// written does not enter the queue.
    pub fn append(&mut self, payload: NewOrder, persisted: bool) -> (res: Result<(), QueueError>)
        ensures
            (final(self)@, res) == append_of(old(self)@, payload@, persisted),
            distinct_orders(final(self)@),
    {
        proof {
            use_type_invariant(&*self);
        }
        if self.breaks.contains(payload.order_number) {
            return Err(QueueError::DuplicateOrder);
        }
        if !persisted {
            return Err(QueueError::PersistenceFailure);
        }
        let mut breaks = self.take();
        breaks.new_order(OrderWithOrder::from_order(payload));
        self.put(breaks);
        Ok(())
    }

    /// Takes the entry filed under `order_number` out of the queue.
    pub fn remove(&mut self, order_number: OrderNumber) -> (res: Result<(), QueueError>)
        ensures
            (final(self)@, res) == remove_of(old(self)@, order_number@),
            distinct_orders(final(self)@),
    {
        proof {
            use_type_invariant(&*self);
        }
        match self.breaks.position(order_number) {
            None => Err(QueueError::NotFound),
            Some(idx) => {
                let mut breaks = self.take();
                breaks.complete(idx);
                self.put(breaks);
                Ok(())
            },
        }
    }

    /// Exchanges the entry filed under `order_number` with the one before it.
    pub fn move_up(&mut self, order_number: OrderNumber) -> (res: Result<(), QueueError>)
        ensures
            (final(self)@, res) == move_up_of(old(self)@, order_number@),
            distinct_orders(final(self)@),
    {
        proof {
            use_type_invariant(&*self);
        }
        match self.breaks.position(order_number) {
            None => Err(QueueError::NotFound),
            Some(idx) => {
                if idx == 0 {
                    return Err(QueueError::BoundaryViolation);
                }
                let mut breaks = self.take();
                breaks.move_up(idx);
                self.put(breaks);
                Ok(())
            },
        }
    }

    /// Exchanges the entry filed under `order_number` with the one after it.
    pub fn move_down(&mut self, order_number: OrderNumber) -> (res: Result<(), QueueError>)
        ensures
            (final(self)@, res) == move_down_of(old(self)@, order_number@),
            distinct_orders(final(self)@),
    {
        proof {
            use_type_invariant(&*self);
        }
        match self.breaks.position(order_number) {
            None => Err(QueueError::NotFound),
            Some(idx) => {
                if self.breaks.idx_is_last(idx) {
                    return Err(QueueError::BoundaryViolation);
                }
                let mut breaks = self.take();
                breaks.move_down(idx);
                self.put(breaks);
                Ok(())
            },
        }
    }

    /// Shows the entry filed under `order_number` under another name. The
    /// order itself stays as it came.
    pub fn rename(&mut self, order_number: OrderNumber, new_display_name: String) -> (res: Result<
        (),
        QueueError,
    >)
        ensures
            (final(self)@, res) == rename_of(old(self)@, order_number@, new_display_name@),
            distinct_orders(final(self)@),
    {
        let mut breaks = self.take();
        let res = match breaks.get_mut_by_id(order_number) {
            None => Err(QueueError::NotFound),
            Some(entry) => {
                entry.twitch_username = Some(new_display_name);
                Ok(())
            },
        };
        self.put(breaks);
        res
    }
}

} // verus!
