//! What the server does with a request to change the queue.
//!
//! A request is handled in two moves around one durable write. `plan` looks
//! at the queue and says which write the request calls for, or why it fails
//! at once. Whoever serves the request makes that write and hands its outcome
//! to `apply_and_publish`, which changes the queue and puts the new snapshot
//! into the broadcaster's slot. Both are to run under the store's lock, so
//! that no other request comes between them.

use vstd::prelude::*;
use crate::broadcast::Broadcaster;
use crate::models::{holds_order, OrderWithOrder, OrderWithOrderView};
use crate::queue::{
    append_of, move_down_of, move_up_of, remove_of, rename_of, QueueError, QueueStore,
};
use crate::wix::{NewOrder, NewOrderView, OrderNumber};

verus! {

/// A change to one entry. There is one kind: a new display name.
#[derive(Debug, PartialEq, Eq)]
pub enum OrderUpdate {
    Name(String),
}

/// What an [`OrderUpdate`] holds.
pub enum OrderUpdateView {
    Name(Seq<char>),
}

impl View for OrderUpdate {
    type V = OrderUpdateView;

    open spec fn view(&self) -> OrderUpdateView {
        match self {
            OrderUpdate::Name(name) => OrderUpdateView::Name(name@),
        }
    }
}

/// A request to change the queue.
#[derive(Debug, PartialEq, Eq)]
pub enum WriteRequest {
    NewOrder(NewOrder),
    OrderCompleted(OrderNumber),
    MoveUp(OrderNumber),
    MoveDown(OrderNumber),
    UpdateOrder(OrderNumber, OrderUpdate),
}

/// What a [`WriteRequest`] holds.
pub enum WriteRequestView {
    NewOrder(NewOrderView),
    OrderCompleted(int),
    MoveUp(int),
    MoveDown(int),
    UpdateOrder(int, OrderUpdateView),
}

impl View for WriteRequest {
    type V = WriteRequestView;

    open spec fn view(&self) -> WriteRequestView {
        match self {
            WriteRequest::NewOrder(order) => WriteRequestView::NewOrder(order@),
            WriteRequest::OrderCompleted(id) => WriteRequestView::OrderCompleted(id@),
            WriteRequest::MoveUp(id) => WriteRequestView::MoveUp(id@),
            WriteRequest::MoveDown(id) => WriteRequestView::MoveDown(id@),
            WriteRequest::UpdateOrder(id, update) => WriteRequestView::UpdateOrder(id@, update@),
        }
    }
}

/// A write to durable storage.
#[derive(Debug, PartialEq, Eq)]
pub enum PersistenceRequest {
    Insert(OrderWithOrder),
    Delete(OrderNumber),
    UpdateDisplayName(OrderNumber, String),
}

/// What a [`PersistenceRequest`] holds.
pub enum PersistenceRequestView {
    Insert(OrderWithOrderView),
    Delete(int),
    UpdateDisplayName(int, Seq<char>),
}

impl View for PersistenceRequest {
    type V = PersistenceRequestView;

    open spec fn view(&self) -> PersistenceRequestView {
        match self {
            PersistenceRequest::Insert(record) => PersistenceRequestView::Insert(record@),
            PersistenceRequest::Delete(id) => PersistenceRequestView::Delete(id@),
            PersistenceRequest::UpdateDisplayName(id, name) =>
                PersistenceRequestView::UpdateDisplayName(id@, name@),
        }
    }
}

impl DeepView for PersistenceRequest {
    type V = PersistenceRequestView;

    open spec fn deep_view(&self) -> PersistenceRequestView {
        self@
    }
}

/// How a request ended.
#[derive(Debug, Copy, Clone, PartialEq, Eq)]
pub struct Reply {
    /// What the store answered.
    pub result: Result<(), QueueError>,
    /// Whether the queue changed, so that a new snapshot is to be published.
    pub publish: bool,
}

/// What `apply` makes of the queue `q`, and what the store answers. The
/// outcome of the durable write decides for a new order only: one that could
/// not be written is not taken. An entry that is removed or renamed stays
/// removed or renamed in the queue, written or not.
pub open spec fn apply_of(q: Seq<OrderWithOrderView>, request: WriteRequestView, persisted: bool)
    -> (Seq<OrderWithOrderView>, Result<(), QueueError>) {
    match request {
        WriteRequestView::NewOrder(order) => append_of(q, order, persisted),
        WriteRequestView::OrderCompleted(id) => remove_of(q, id),
        WriteRequestView::MoveUp(id) => move_up_of(q, id),
        WriteRequestView::MoveDown(id) => move_down_of(q, id),
        WriteRequestView::UpdateOrder(id, OrderUpdateView::Name(name)) => rename_of(q, id, name),
    }
}

/// The durable write that `request` calls for on the queue `q`, if it calls
/// for one.
pub open spec fn write_for(request: WriteRequestView) -> Option<PersistenceRequestView> {
    match request {
        WriteRequestView::NewOrder(order) => Some(
            PersistenceRequestView::Insert(OrderWithOrderView::of_order(order)),
        ),
        WriteRequestView::OrderCompleted(id) => Some(PersistenceRequestView::Delete(id)),
        WriteRequestView::MoveUp(_) => None,
        WriteRequestView::MoveDown(_) => None,
        WriteRequestView::UpdateOrder(id, OrderUpdateView::Name(name)) => Some(
            PersistenceRequestView::UpdateDisplayName(id, name),
        ),
    }
}

/// What `plan` answers on the queue `q`: the error with which the request
/// would fail even if every write went through, or else the write to make.
pub open spec fn plan_of(q: Seq<OrderWithOrderView>, request: WriteRequestView) -> Result<
    Option<PersistenceRequestView>,
    QueueError,
> {
    match apply_of(q, request, true).1 {
        Err(why) => Err(why),
        Ok(_) => Ok(write_for(request)),
    }
}

/// Says which durable write `request` calls for, or why the request fails
/// whatever the write would do. The queue is not changed.
pub fn plan(store: &QueueStore, request: &WriteRequest) -> (res: Result<
    Option<PersistenceRequest>,
    QueueError,
>)
    ensures
        match res {
            Ok(write) => plan_of(store@, request@) == Ok::<
                Option<PersistenceRequestView>,
                QueueError,
            >(write.deep_view()),
            Err(why) => plan_of(store@, request@) == Err::<
                Option<PersistenceRequestView>,
                QueueError,
            >(why),
        },
{
    match request {
        WriteRequest::NewOrder(order) => match store.check_append(order) {
            Err(why) => Err(why),
            Ok(_) => Ok(Some(PersistenceRequest::Insert(OrderWithOrder::from_order(order.clone())))),
        },
        WriteRequest::OrderCompleted(id) => match store.position(*id) {
            None => Err(QueueError::NotFound),
            Some(_) => Ok(Some(PersistenceRequest::Delete(*id))),
        },
        WriteRequest::MoveUp(id) => match store.position(*id) {
            None => Err(QueueError::NotFound),
            Some(idx) => if idx == 0 {
                Err(QueueError::BoundaryViolation)
            } else {
                Ok(None)
            },
        },
        WriteRequest::MoveDown(id) => match store.position(*id) {
            None => Err(QueueError::NotFound),
            Some(idx) => if idx == store.len() - 1 {
                Err(QueueError::BoundaryViolation)
            } else {
                Ok(None)
            },
        },
        WriteRequest::UpdateOrder(id, OrderUpdate::Name(name)) => match store.position(*id) {
            None => Err(QueueError::NotFound),
            Some(_) => Ok(Some(PersistenceRequest::UpdateDisplayName(*id, name.clone()))),
        },
    }
}

/// Carries `request` out on the queue. `persisted` is the outcome of the
/// write that `plan` called for; where it called for none, it is not read.
pub fn apply(store: &mut QueueStore, request: WriteRequest, persisted: bool) -> (res: Reply)
    ensures
        (final(store)@, res.result) == apply_of(old(store)@, request@, persisted),
        res.publish == res.result is Ok,
{
    let result = match request {
        WriteRequest::NewOrder(order) => store.append(order, persisted),
        WriteRequest::OrderCompleted(id) => store.remove(id),
        WriteRequest::MoveUp(id) => store.move_up(id),
        WriteRequest::MoveDown(id) => store.move_down(id),
        WriteRequest::UpdateOrder(id, OrderUpdate::Name(name)) => store.rename(id, name),
    };
    Reply { result, publish: result.is_ok() }
}

/// Whether the broadcaster's slot holds the queue as the store has it.
pub open spec fn in_step(store: &QueueStore, broadcaster: &Broadcaster) -> bool {
    broadcaster.current() == store@
}

/// Carries `request` out on the queue and, if the queue changed, puts the
/// new snapshot into the broadcaster's slot before anything else can change
/// the queue. So the slot never holds a half-made change, and snapshots reach
/// it in the order in which the changes were made. Waking the subscribers is
/// left to the caller, who does it after the store's lock is released.
pub fn apply_and_publish(
    store: &mut QueueStore,
    broadcaster: &mut Broadcaster,
    request: WriteRequest,
    persisted: bool,
) -> (res: Reply)
    ensures
        (final(store)@, res.result) == apply_of(old(store)@, request@, persisted),
        res.publish == res.result is Ok,
        final(broadcaster).history() == if res.publish {
            old(broadcaster).history().push(final(store)@)
        } else {
            old(broadcaster).history()
        },
        in_step(old(store), old(broadcaster)) ==> in_step(final(store), final(broadcaster)),
{
    let reply = apply(store, request, persisted);
    if reply.publish {
        broadcaster.publish(store.snapshot());
    }
    reply
}

/// The HTTP status that answers a request: 200 where the store took it, and
/// where it turned a new order down as a duplicate, which a redelivery is
/// expected to be; 500 for every other failure.
pub fn status(result: Result<(), QueueError>) -> (res: u16)
    ensures
        res == match result {
            Ok(_) => 200u16,
            Err(QueueError::DuplicateOrder) => 200u16,
            Err(_) => 500u16,
        },
{
    match result {
        Ok(_) => 200,
        Err(QueueError::DuplicateOrder) => 200,
        Err(_) => 500,
    }
}

/// A request that `plan` turns down fails in `apply` with the same error,
/// whatever the write did, and leaves the queue as it was. A request that
/// `plan` lets through succeeds in `apply` once its write has gone through.
pub proof fn lemma_plan_foretells_apply(
    q: Seq<OrderWithOrderView>,
    request: WriteRequestView,
    persisted: bool,
)
    ensures
        plan_of(q, request) matches Err(why) ==> apply_of(q, request, persisted) == (
            q,
            Err::<(), QueueError>(why),
        ),
        plan_of(q, request) is Ok ==> apply_of(q, request, true).1 is Ok,
{
}

/// Only a new order depends on its write: every other request does to the
/// queue what it does whether or not the write went through.
pub proof fn lemma_only_new_orders_wait_for_the_write(
    q: Seq<OrderWithOrderView>,
    request: WriteRequestView,
)
    requires
        !(request is NewOrder),
    ensures
        apply_of(q, request, false) == apply_of(q, request, true),
{
}

/// A new order that could not be written leaves the queue as it was, and the
/// failure is reported.
pub proof fn lemma_unwritten_order_is_not_taken(q: Seq<OrderWithOrderView>, order: NewOrderView)
    requires
        !holds_order(q, order.order_number),
    ensures
        apply_of(q, WriteRequestView::NewOrder(order), false) == (
            q,
            Err::<(), QueueError>(QueueError::PersistenceFailure),
        ),
{
}

} // verus!
