//! The queue of pending orders and the records it is made of.

use vstd::prelude::*;
use crate::wix::{NewOrder, NewOrderView, OrderNumber};

verus! {

/// One entry of the queue: an order, its number and the name shown for it.
#[derive(Debug, PartialEq, Eq)]
pub struct OrderWithOrder {
    pub twitch_username: Option<String>,
    pub order_id: OrderNumber,
    pub order: NewOrder,
}

/// What an [`OrderWithOrder`] holds.
pub struct OrderWithOrderView {
    pub twitch_username: Option<Seq<char>>,
    pub order_id: int,
    pub order: NewOrderView,
}

impl View for OrderWithOrder {
    type V = OrderWithOrderView;

    open spec fn view(&self) -> OrderWithOrderView {
        OrderWithOrderView {
            twitch_username: self.twitch_username.deep_view(),
            order_id: self.order_id@,
            order: self.order@,
        }
    }
}

impl DeepView for OrderWithOrder {
    type V = OrderWithOrderView;

    open spec fn deep_view(&self) -> OrderWithOrderView {
        self@
    }
}

impl Clone for OrderWithOrder {
    fn clone(&self) -> (res: Self)
        ensures
            res@ == self@,
    {
        OrderWithOrder {
            twitch_username: self.twitch_username.clone(),
            order_id: self.order_id,
            order: self.order.clone(),
        }
    }
}

impl OrderWithOrderView {
    /// The record that an accepted order becomes: filed under the order's own
    /// number, named after its custom field where that field is recognised.
    pub open spec fn of_order(order: NewOrderView) -> OrderWithOrderView {
        OrderWithOrderView {
            twitch_username: order.display_name(),
            order_id: order.order_number,
            order,
        }
    }

    /// This record under another display name.
    pub open spec fn renamed(self, name: Seq<char>) -> OrderWithOrderView {
        OrderWithOrderView { twitch_username: Some(name), ..self }
    }
}

impl OrderWithOrder {
    /// Builds the queue entry for an order. An order whose custom field is
    /// missing or titled otherwise gets no display name; that is no error.
    pub fn from_order(order: NewOrder) -> (res: OrderWithOrder)
        ensures
            res@ == OrderWithOrderView::of_order(order@),
    {
        let twitch_username = match order.twitch_username() {
            Ok(name) => Some(name),
            Err(_) => None,
        };
        OrderWithOrder { twitch_username, order_id: order.order_number, order }
    }
}

/// What the server pushes to its subscribers. There is one kind of event:
/// the whole queue, as it stands after a change.
#[derive(Debug, PartialEq, Eq)]
pub enum SseEvent {
    BreaksUpdated(Breaks),
}

/// What an [`SseEvent`] holds.
pub enum SseEventView {
    BreaksUpdated(Seq<OrderWithOrderView>),
}

impl View for SseEvent {
    type V = SseEventView;

    open spec fn view(&self) -> SseEventView {
        match self {
            SseEvent::BreaksUpdated(breaks) => SseEventView::BreaksUpdated(breaks@),
        }
    }
}

impl Clone for SseEvent {
    fn clone(&self) -> (res: Self)
        ensures
            res@ == self@,
    {
        match self {
            SseEvent::BreaksUpdated(breaks) => SseEvent::BreaksUpdated(breaks.clone()),
        }
    }
}

/// The sequence `s` with the entries at `i` and `j` exchanged.
pub open spec fn swapped<T>(s: Seq<T>, i: int, j: int) -> Seq<T>
    recommends
        0 <= i < s.len(),
        0 <= j < s.len(),
{
    s.update(i, s[j]).update(j, s[i])
}

/// Whether some entry of `s` is filed under `id`.
pub open spec fn holds_order(s: Seq<OrderWithOrderView>, id: int) -> bool {
    exists|i: int| 0 <= i < s.len() && (#[trigger] s[i]).order_id == id
}

/// Whether `i` is the place of the first entry of `s` filed under `id`.
pub open spec fn is_first_position(s: Seq<OrderWithOrderView>, id: int, i: int) -> bool {
    &&& 0 <= i < s.len()
    &&& s[i].order_id == id
    &&& forall|j: int| 0 <= j < i ==> (#[trigger] s[j]).order_id != id
}

/// Whether no two entries of `s` are filed under one number.
pub open spec fn distinct_orders(s: Seq<OrderWithOrderView>) -> bool {
    forall|i: int, j: int|
        0 <= i < j < s.len() ==> (#[trigger] s[i]).order_id != (#[trigger] s[j]).order_id
}

/// The entries of `s` that are not filed under `id`, in their order.
pub open spec fn without_order(s: Seq<OrderWithOrderView>, id: int) -> Seq<OrderWithOrderView> {
    s.filter(|r: OrderWithOrderView| r.order_id != id)
}

/// The ordered list of pending orders. The entry at index 0 is the one being
/// served; the rest follow in serving order.
#[derive(Debug, PartialEq, Eq)]
pub struct Breaks {
    ordered_breaks: Vec<OrderWithOrder>,
}

impl View for Breaks {
    type V = Seq<OrderWithOrderView>;

    closed spec fn view(&self) -> Seq<OrderWithOrderView> {
        self.ordered_breaks.deep_view()
    }
}

impl DeepView for Breaks {
    type V = Seq<OrderWithOrderView>;

    open spec fn deep_view(&self) -> Seq<OrderWithOrderView> {
        self@
    }
}

impl Clone for Breaks {
    fn clone(&self) -> (res: Self)
        ensures
            res@ == self@,
    {
        let ordered_breaks = self.ordered_breaks.clone();
        Breaks { ordered_breaks }
    }
}

impl Default for Breaks {
    fn default() -> (res: Self)
        ensures
            res@ == Seq::<OrderWithOrderView>::empty(),
    {
        Breaks::empty()
    }
}

impl Breaks {
    /// The queue with nothing in it.
    pub fn empty() -> (res: Breaks)
        ensures
            res@ == Seq::<OrderWithOrderView>::empty(),
    {
        let res = Breaks { ordered_breaks: Vec::new() };
        res
    }

    /// The queue a server starts with: empty.
    pub fn initialize() -> (res: Breaks)
        ensures
            res@ == Seq::<OrderWithOrderView>::empty(),
    {
        Breaks::empty()
    }

    /// The queue that serves `ordered_breaks` front to back.
    pub fn from_ordered(ordered_breaks: Vec<OrderWithOrder>) -> (res: Breaks)
        ensures
            res@ == ordered_breaks.deep_view(),
    {
        Breaks { ordered_breaks }
    }

    /// The number of entries.
    pub fn len(&self) -> (res: usize)
        ensures
            res == self@.len(),
    {
        self.ordered_breaks.len()
    }

    pub fn is_empty(&self) -> (res: bool)
        ensures
            res == (self@.len() == 0),
    {
        self.ordered_breaks.len() == 0
    }

    /// Whether `idx` is the place of the entry served last.
    pub fn idx_is_last(&self, idx: usize) -> (res: bool)
        ensures
            res == (idx + 1 == self@.len()),
    {
        let len: usize = self.ordered_breaks.len();
        len > 0 && idx == len - 1
    }

    /// Whether `idx` is the place of the entry being served.
    pub fn idx_is_first(&self, idx: usize) -> (res: bool)
        ensures
            res == (idx == 0),
    {
        idx == 0
    }

    /// The entry at `idx`.
    pub fn get(&self, idx: usize) -> (res: &OrderWithOrder)
        requires
            idx < self@.len(),
        ensures
            res@ == self@[idx as int],
    {
        &self.ordered_breaks[idx]
    }

    /// Moves the entry at `idx` one place towards the front.
    pub fn move_up(&mut self, idx: usize)
        requires
            0 < idx < old(self)@.len(),
        ensures
            final(self)@ == swapped(old(self)@, idx as int, idx - 1),
    {
        let entry = self.ordered_breaks.remove(idx);
        self.ordered_breaks.insert(idx - 1, entry);
    }

    /// Moves the entry at `idx` one place towards the back.
    pub fn move_down(&mut self, idx: usize)
        requires
            idx + 1 < old(self)@.len(),
        ensures
            final(self)@ == swapped(old(self)@, idx as int, idx + 1),
    {
        proof {
            vstd::std_specs::vec::axiom_spec_len(&self.ordered_breaks);
        }
        let entry = self.ordered_breaks.remove(idx);
        self.ordered_breaks.insert(idx + 1, entry);
    }

    /// Puts `order` at the back of the queue.
    pub fn new_order(&mut self, order: OrderWithOrder)
        ensures
            final(self)@ == old(self)@.push(order@),
    {
        self.ordered_breaks.push(order);
    }

    /// Takes the entry at `idx` out of the queue.
    pub fn complete(&mut self, idx: usize)
        requires
            idx < old(self)@.len(),
        ensures
            final(self)@ == old(self)@.remove(idx as int),
    {
        let _ = self.ordered_breaks.remove(idx);
    }

    /// The place of the first entry filed under `id`, if there is one.
    pub fn position(&self, id: OrderNumber) -> (res: Option<usize>)
        ensures
            match res {
                Some(idx) => is_first_position(self@, id@, idx as int),
                None => !holds_order(self@, id@),
            },
    {
        let len: usize = self.ordered_breaks.len();
        let mut idx: usize = 0;
        while idx < len
            invariant
                idx <= len,
                len == self.ordered_breaks@.len(),
                len == self@.len(),
                forall|j: int| 0 <= j < idx ==> (#[trigger] self@[j]).order_id != id@,
            decreases len - idx,
        {
            if self.ordered_breaks[idx].order_id == id {
                return Some(idx);
            }
            idx = idx + 1;
        }
        None
    }

    /// Whether some entry is filed under `id`.
    pub fn contains(&self, id: OrderNumber) -> (res: bool)
        ensures
            res == holds_order(self@, id@),
    {
        self.position(id).is_some()
    }

    /// Takes every entry filed under `id` out of the queue; the others keep
    /// their order.
    pub fn remove_by_id(&mut self, id: OrderNumber)
        ensures
            final(self)@ == without_order(old(self)@, id@),
    {
        let ghost before = self@;
        let ghost keep = |r: OrderWithOrderView| r.order_id != id@;
        let ghost mut seen: int = 0;
        let mut idx: usize = 0;
        assert(before.take(0).filter(keep) =~= Seq::<OrderWithOrderView>::empty());
        while idx < self.ordered_breaks.len()
            invariant
                0 <= seen <= before.len(),
                keep == (|r: OrderWithOrderView| r.order_id != id@),
                idx == before.take(seen).filter(keep).len(),
                self@ == before.take(seen).filter(keep) + before.skip(seen),
            decreases before.len() - seen,
        {
            assert(self@[idx as int] == before[seen]);
            assert(before.take(seen + 1).drop_last() =~= before.take(seen));
            assert(before.take(seen + 1).filter(keep) == if keep(before[seen]) {
                before.take(seen).filter(keep).push(before[seen])
            } else {
                before.take(seen).filter(keep)
            }) by {
                reveal(Seq::filter);
            }
            let ghost current = self@;
            if self.ordered_breaks[idx].order_id == id {
                let _ = self.ordered_breaks.remove(idx);
                assert(self@ =~= current.remove(idx as int));
            } else {
                idx = idx + 1;
            }
            proof {
                seen = seen + 1;
            }
        }
        assert(before.take(seen) =~= before);
    }

    /// The first entry filed under `id`, to be changed in place.
    pub fn get_mut_by_id(&mut self, id: OrderNumber) -> (res: Option<&mut OrderWithOrder>)
        ensures
            match res {
                Some(entry) => exists|i: int|
                    is_first_position(old(self)@, id@, i) && (*entry)@ == old(self)@[i]
                        && final(self)@ == old(self)@.update(i, (*final(entry))@),
                None => !holds_order(old(self)@, id@) && final(self)@ == old(self)@,
            },
    {
        match self.position(id) {
            Some(idx) => {
                Some(&mut self.ordered_breaks[idx])
            },
            None => None,
        }
    }
}

/// A walk over the queue, front to back.
pub struct BreaksIter<'a> {
    breaks: &'a Breaks,
    at: usize,
}

impl<'a> BreaksIter<'a> {
    /// The entries that the walk has yet to hand out, in their order.
    pub closed spec fn remaining(&self) -> Seq<OrderWithOrderView> {
        if self.at <= self.breaks@.len() {
            self.breaks@.skip(self.at as int)
        } else {
            Seq::empty()
        }
    }

    /// Hands out the next entry, if one is left.
    pub fn next(&mut self) -> (res: Option<&'a OrderWithOrder>)
        ensures
            match res {
                Some(entry) => old(self).remaining().len() > 0 && entry@ == old(
                    self,
                ).remaining().first() && final(self).remaining() == old(self).remaining().skip(1),
                None => old(self).remaining().len() == 0 && final(self).remaining() == old(
                    self,
                ).remaining(),
            },
    {
        if self.at < self.breaks.len() {
            let entry = self.breaks.get(self.at);
            self.at = self.at + 1;
            Some(entry)
        } else {
            None
        }
    }
}

impl Breaks {
    /// A walk over the entries, front to back.
    pub fn iter(&self) -> (res: BreaksIter<'_>)
        ensures
            res.remaining() == self@,
    {
        let res = BreaksIter { breaks: self, at: 0 };
        res
    }
}

/// An order as the server first lists it: who it is for and its number.
#[derive(Debug, PartialEq, Eq)]
pub struct Order {
    pub twitch_username: String,
    pub order_id: OrderNumber,
}

/// What an [`Order`] holds.
pub struct OrderView {
    pub twitch_username: Seq<char>,
    pub order_id: int,
}

impl View for Order {
    type V = OrderView;

    open spec fn view(&self) -> OrderView {
        OrderView { twitch_username: self.twitch_username@, order_id: self.order_id@ }
    }
}

impl Clone for Order {
    fn clone(&self) -> (res: Self)
        ensures
            res@ == self@,
    {
        Order { twitch_username: self.twitch_username.clone(), order_id: self.order_id }
    }
}

/// An order as it is stored: who it is for, its number, and the order
/// document as JSON text.
#[derive(Debug, PartialEq, Eq)]
pub struct OrderWithJson {
    pub twitch_username: String,
    pub order_id: OrderNumber,
    pub json: String,
}

/// What an [`OrderWithJson`] holds.
pub struct OrderWithJsonView {
    pub twitch_username: Seq<char>,
    pub order_id: int,
    pub json: Seq<char>,
}

impl View for OrderWithJson {
    type V = OrderWithJsonView;

    open spec fn view(&self) -> OrderWithJsonView {
        OrderWithJsonView {
            twitch_username: self.twitch_username@,
            order_id: self.order_id@,
            json: self.json@,
        }
    }
}

impl Clone for OrderWithJson {
    fn clone(&self) -> (res: Self)
        ensures
            res@ == self@,
    {
        OrderWithJson {
            twitch_username: self.twitch_username.clone(),
            order_id: self.order_id,
            json: self.json.clone(),
        }
    }
}

impl OrderWithJson {
    /// The plain listing of this stored order.
    pub fn summary(&self) -> (res: Order)
        ensures
            res@ == (OrderView { twitch_username: self@.twitch_username, order_id: self@.order_id }),
    {
        Order { twitch_username: self.twitch_username.clone(), order_id: self.order_id }
    }

    /// The queue entry for this stored order, given the order that its JSON
    /// text decodes to. The entry keeps the name and the number under which
    /// the order was stored.
    pub fn into_entry(self, order: NewOrder) -> (res: OrderWithOrder)
        ensures
            res@ == (OrderWithOrderView {
                twitch_username: Some(self@.twitch_username),
                order_id: self@.order_id,
                order: order@,
            }),
    {
        OrderWithOrder {
            twitch_username: Some(self.twitch_username),
            order_id: self.order_id,
            order,
        }
    }
}

/// What a client tells the server.
#[derive(Debug, Copy, Clone, PartialEq, Eq, Structural)]
pub enum ClientMsg {
    BreakCompleted { order_number: OrderNumber },
}

/// What the server tells a client that keeps its own copy of the queue.
#[derive(Debug, PartialEq, Eq)]
pub enum ServerMsg {
    NewOrder { new_order: OrderWithJson },
    BreakCompletedSuccess { order_number: OrderNumber },
    BreakCompletedError { order_number: OrderNumber },
}

/// A change of the queue, told to a stream-capture window that follows the
/// queue step by step.
#[derive(Debug, PartialEq, Eq)]
pub enum StreamCaptureWindowMessage {
    BreakCompleted(usize),
    MoveUp(usize),
    MoveDown(usize),
    NewOrder(OrderWithOrder),
    InitialOrders(Vec<OrderWithOrder>),
}

} // verus!
