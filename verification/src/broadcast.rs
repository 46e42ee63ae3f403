//! The broadcaster: one slot that holds the latest snapshot of the queue, and
//! the handles through which subscribers read it.
//!
//! The slot keeps no backlog. A subscriber that reads rarely skips what was
//! published in between and gets the latest snapshot; it never gets one that
//! is older than what it has seen, and a publisher never waits for it.

use vstd::prelude::*;
use crate::models::{Breaks, OrderWithOrderView};

verus! {

/// The number of values a stamp can take.
pub open spec fn stamp_range() -> int {
    0x1_0000_0000_0000_0000
}

/// Whether a subscriber that has read `position` snapshots of a history of
/// `published` is owed a delivery. A subscriber that has read nothing always
/// is. One that has read something is, unless its stamp equals the slot's;
/// stamps count publications and wrap around at `stamp_range()`.
pub open spec fn owed(published: nat, position: nat) -> bool {
    position == 0 || (published - position) % stamp_range() != 0
}

/// What a poll delivers to a subscriber at `position`, and where the
/// subscriber stands afterwards: the latest snapshot and the end of the
/// history if a delivery is owed, nothing and no move otherwise.
pub open spec fn poll_of(history: Seq<Seq<OrderWithOrderView>>, position: nat) -> (
    Option<Seq<OrderWithOrderView>>,
    nat,
) {
    if owed(history.len(), position) {
        (Some(history.last()), history.len())
    } else {
        (None, position)
    }
}

/// A subscriber that is behind by less than a full turn of the stamp is owed
/// a delivery, and one that is level with the history is owed none.
pub proof fn lemma_owed(published: nat, position: nat)
    requires
        position <= published,
        published - position < stamp_range(),
    ensures
        owed(published, position) == (position == 0 || position < published),
{
}

/// No subscriber is handed a snapshot older than one it was handed before.
/// Take a subscriber at `position` in `earlier`, poll, let the history grow
/// to `later`, poll again. Whatever either poll delivers is the snapshot the
/// later history has at the place the subscriber then stands at, and that
/// place never moves back.
pub proof fn lemma_deliveries_never_go_back(
    earlier: Seq<Seq<OrderWithOrderView>>,
    later: Seq<Seq<OrderWithOrderView>>,
    position: nat,
)
    requires
        earlier.len() > 0,
        position <= earlier.len(),
        earlier.is_prefix_of(later),
    ensures
        ({
            let (first, after_first) = poll_of(earlier, position);
            let (second, after_second) = poll_of(later, after_first);
            &&& position <= after_first <= after_second <= later.len()
            &&& first matches Some(snapshot) ==> snapshot == later[after_first - 1]
            &&& second matches Some(snapshot) ==> snapshot == later[after_second - 1]
            &&& first is Some && second is Some ==> after_first < after_second
        }),
{
}

/// The single slot. It remembers, for the proofs only, everything that was
/// ever put into it.
pub struct Broadcaster {
    current: Breaks,
    stamp: u64,
    history: Ghost<Seq<Seq<OrderWithOrderView>>>,
}

/// A subscriber's handle. It remembers how far into the broadcaster's history
/// the subscriber has read.
pub struct SubscriptionHandle {
    seen: Option<u64>,
    position: Ghost<nat>,
}

impl SubscriptionHandle {
    /// How many of the history's snapshots lie at or before the last one that
    /// was delivered through this handle; 0 before the first delivery.
    pub closed spec fn position(&self) -> nat {
        self.position@
    }

    #[verifier::type_invariant]
    spec fn stamped(self) -> bool {
        match self.seen {
            None => self.position@ == 0,
            Some(stamp) => self.position@ > 0 && stamp as int == (self.position@ as int)
                % stamp_range(),
        }
    }
}

impl Broadcaster {
    /// Every snapshot that the slot has held, oldest first. The last one is
    /// the current one.
    pub closed spec fn history(&self) -> Seq<Seq<OrderWithOrderView>> {
        self.history@
    }

    /// The snapshot in the slot.
    pub open spec fn current(&self) -> Seq<OrderWithOrderView> {
        self.history().last()
    }

    /// Whether `handle` can have come from this broadcaster: it has read no
    /// further than the history goes.
    pub open spec fn serves(&self, handle: &SubscriptionHandle) -> bool {
        handle.position() <= self.history().len()
    }

    #[verifier::type_invariant]
    spec fn stamped(self) -> bool {
        &&& self.history@.len() > 0
        &&& self.history@.last() == self.current@
        &&& self.stamp as int == (self.history@.len() as int) % stamp_range()
    }

    /// A broadcaster whose slot holds `initial`.
    pub fn new(initial: Breaks) -> (res: Broadcaster)
        ensures
            res.history() == seq![initial@],
    {
        let ghost history = Seq::<Seq<OrderWithOrderView>>::empty().push(initial@);
        Broadcaster { current: initial, stamp: 1, history: Ghost(history) }
    }

    /// Puts `snapshot` into the slot in place of what was there. Returns at
    /// once, whoever is subscribed and however far behind.
    pub fn publish(&mut self, snapshot: Breaks)
        ensures
            final(self).history() == old(self).history().push(snapshot@),
    {
        proof {
            use_type_invariant(&*self);
        }
        let ghost history = self.history@.push(snapshot@);
        let stamp: u64 = self.stamp.wrapping_add(1);
        *self = Broadcaster { current: snapshot, stamp, history: Ghost(history) };
    }

    /// A copy of the snapshot in the slot: the whole queue, for a reader that
    /// asks once.
    pub fn latest(&self) -> (res: Breaks)
        ensures
            res@ == self.current(),
            self.history().len() > 0,
    {
        proof {
            use_type_invariant(self);
        }
        self.current.clone()
    }

    /// A new handle. It has read nothing, so the first poll through it
    /// delivers the snapshot then in the slot without waiting for a change.
    pub fn subscribe(&self) -> (res: SubscriptionHandle)
        ensures
            res.position() == 0,
            self.serves(&res),
    {
        SubscriptionHandle { seen: None, position: Ghost(0) }
    }

    /// Delivers the snapshot in the slot if `handle` has not read it yet, and
    /// marks it read.
    pub fn poll(&self, handle: &mut SubscriptionHandle) -> (res: Option<Breaks>)
        ensures
            (res.deep_view(), final(handle).position()) == poll_of(
                self.history(),
                old(handle).position(),
            ),
            self.history().len() > 0,
            self.serves(old(handle)) ==> self.serves(final(handle)),
    {
        proof {
            use_type_invariant(self);
            use_type_invariant(&*handle);
        }
        let behind = match handle.seen {
            None => true,
            Some(stamp) => stamp != self.stamp,
        };
        if behind {
            *handle = SubscriptionHandle {
                seen: Some(self.stamp),
                position: Ghost(self.history@.len()),
            };
            Some(self.current.clone())
        } else {
            None
        }
    }
}

} // verus!
