//! The book reconciler: a snapshot and a stream of sequenced depth updates
//! become a consistent two-sided ladder.

use vstd::prelude::*;
use crate::data::depth::{DepthSnapshot, OrderbookUpdateStream};
use crate::ladder::{apply_levels, no_empty_level, Ladder, Level, lemma_level_map_at};

verus! {

/// What became of a depth update.
#[derive(Clone, Copy, Debug, PartialEq, Eq, Structural)]
pub enum ApplyResult {
    /// The update was in sequence and is now part of the book.
    Applied,
    /// The update covers nothing newer than the book; the book is untouched.
    DroppedStale,
    /// Updates were lost before this one; the book was emptied and waits for
    /// a snapshot.
    Reinitialize,
}

/// A venue's book as this process sees it.
pub struct Orderbook {
    pub bids: Ladder,
    pub asks: Ladder,
    pub trade_time: u64,
    pub event_time: u64,
    pub last_source: Option<String>,
    pub last_update_id: u64,
}

/// Where an update stands against a book that has seen everything up to
/// `last_update_id`. An update that ends at or before that id is stale. A
/// derivatives update is in sequence when it names that id as its
/// predecessor's last; a spot update when it starts no later than the id
/// that follows.
pub open spec fn sequence_outcome(last_update_id: u64, ev: OrderbookUpdateStream) -> ApplyResult {
    if ev.final_update_id <= last_update_id {
        ApplyResult::DroppedStale
    } else {
        match ev.previous_final_update_id {
            Some(pu) => if pu == last_update_id {
                ApplyResult::Applied
            } else {
                ApplyResult::Reinitialize
            },
            None => if ev.first_update_id <= last_update_id + 1 {
                ApplyResult::Applied
            } else {
                ApplyResult::Reinitialize
            },
        }
    }
}

/// An update as the one that continues a snapshot: the update before it
/// came before the snapshot, so the id of that update says nothing, and
/// the update is placed by its own id range alone.
pub open spec fn continuing(ev: OrderbookUpdateStream) -> OrderbookUpdateStream {
    OrderbookUpdateStream { previous_final_update_id: None, ..ev }
}

/// Whether some bid of `bids` is priced above some ask of `asks`.
pub open spec fn crossed(bids: Map<u64, u64>, asks: Map<u64, u64>) -> bool {
    exists|b: u64, a: u64| bids.contains_key(b) && asks.contains_key(a) && b > a
}

/// The source tag that a book carries after taking in `tag`.
pub open spec fn tagged(source: Option<String>, tag: String) -> bool {
    source matches Some(s) && s@ == tag@
}

/// How `apply` relates the book before, the update, the book after and the
/// result.
pub open spec fn apply_post(
    pre: Orderbook,
    ev: OrderbookUpdateStream,
    post: Orderbook,
    r: ApplyResult,
) -> bool {
    &&& r == sequence_outcome(pre.last_update_id, ev)
    &&& post.wf()
    &&& match r {
        ApplyResult::Applied => {
            &&& post.bids@ == apply_levels(pre.bids@, ev.bids@)
            &&& post.asks@ == apply_levels(pre.asks@, ev.asks@)
            &&& post.trade_time == ev.trade_time
            &&& post.event_time == ev.event_time
            &&& tagged(post.last_source, ev.last_update_exchange)
            &&& post.last_update_id == ev.final_update_id
        },
        ApplyResult::DroppedStale => post == pre,
        ApplyResult::Reinitialize => {
            &&& post.bids@ == Map::<u64, u64>::empty()
            &&& post.asks@ == Map::<u64, u64>::empty()
            &&& post.trade_time == pre.trade_time
            &&& post.event_time == pre.event_time
            &&& post.last_source == pre.last_source
            &&& post.last_update_id == pre.last_update_id
        },
    }
}

/// The change of size that one update made at its price.
#[derive(Clone, Copy, Debug, PartialEq, Eq, Structural)]
pub struct LevelDiff {
    pub price: u64,
    pub diff: i128,
}

/// The size resting at `price`, zero where nothing rests there.
pub open spec fn size_at(m: Map<u64, u64>, price: u64) -> u64 {
    if m.contains_key(price) {
        m[price]
    } else {
        0
    }
}

/// For each update of `ups`, in order, its size minus the size that rested
/// at its price when its turn came.
pub open spec fn level_diffs(m: Map<u64, u64>, ups: Seq<Level>) -> Seq<LevelDiff>
    decreases ups.len(),
{
    if ups.len() == 0 {
        Seq::empty()
    } else {
        level_diffs(m, ups.drop_last()).push(
            LevelDiff {
                price: ups.last().price,
                diff: (ups.last().size - size_at(
                    apply_levels(m, ups.drop_last()),
                    ups.last().price,
                )) as i128,
            },
        )
    }
}

/// Makes the updates of `ups` on one side, first to last, and reports the
/// change of size that each made.
pub fn apply_side_with_diff(side: &mut Ladder, ups: &Vec<Level>) -> (diffs: Vec<LevelDiff>)
    ensures
        final(side).wf(),
        final(side)@ == apply_levels(old(side)@, ups@),
        diffs@ == level_diffs(old(side)@, ups@),
{
    let n = ups.len();
    let mut diffs: Vec<LevelDiff> = Vec::new();
    let mut i: usize = 0;
    proof {
        use_type_invariant(&*side);
        assert(ups@.take(0) =~= Seq::empty());
    }
    while i < n
        invariant
            i <= n,
            n == ups@.len(),
            side.wf(),
            side@ == apply_levels(old(side)@, ups@.take(i as int)),
            diffs@ == level_diffs(old(side)@, ups@.take(i as int)),
        decreases n - i,
    {
        proof {
            assert(ups@.take(i + 1).drop_last() =~= ups@.take(i as int));
            assert(ups@.take(i + 1).last() == ups@[i as int]);
        }
        let before: u64 = match side.get(ups[i].price) {
            Some(size) => size,
            None => 0,
        };
        diffs.push(LevelDiff { price: ups[i].price, diff: (ups[i].size as i128) - (before as i128) });
        side.set(ups[i].price, ups[i].size);
        i = i + 1;
    }
    assert(ups@.take(n as int) =~= ups@);
    diffs
}

/// Makes the updates of `ups` on one side, first to last.
pub fn apply_side(side: &mut Ladder, ups: &Vec<Level>)
    ensures
        final(side).wf(),
        final(side)@ == apply_levels(old(side)@, ups@),
{
    let n = ups.len();
    let mut i: usize = 0;
    proof {
        use_type_invariant(&*side);
        assert(ups@.take(0) =~= Seq::empty());
    }
    while i < n
        invariant
            i <= n,
            n == ups@.len(),
            side.wf(),
            side@ == apply_levels(old(side)@, ups@.take(i as int)),
        decreases n - i,
    {
        proof {
            assert(ups@.take(i + 1).drop_last() =~= ups@.take(i as int));
            assert(ups@.take(i + 1).last() == ups@[i as int]);
        }
        side.set(ups[i].price, ups[i].size);
        i = i + 1;
    }
    assert(ups@.take(n as int) =~= ups@);
}

impl Orderbook {
    /// Both sides are in price order and hold no empty level.
    pub open spec fn wf(&self) -> bool {
        self.bids.wf() && self.asks.wf()
    }

    /// The highest bid, if there is a bid.
    pub open spec fn best_bid_level(&self) -> Option<Level> {
        if self.bids.levels().len() == 0 {
            None
        } else {
            Some(self.bids.levels().last())
        }
    }

    /// The lowest ask, if there is an ask.
    pub open spec fn best_ask_level(&self) -> Option<Level> {
        if self.asks.levels().len() == 0 {
            None
        } else {
            Some(self.asks.levels()[0])
        }
    }

    /// An empty book that has seen no update: no level on either side, so
    /// no best bid and no best ask.
    pub fn new() -> (r: Self)
        ensures
            r.wf(),
            r.bids.levels() == Seq::<Level>::empty(),
            r.asks.levels() == Seq::<Level>::empty(),
            r.bids@ == Map::<u64, u64>::empty(),
            r.asks@ == Map::<u64, u64>::empty(),
            r.trade_time == 0,
            r.event_time == 0,
            r.last_source is None,
            r.last_update_id == 0,
    {
        Orderbook {
            bids: Ladder::new(),
            asks: Ladder::new(),
            trade_time: 0,
            event_time: 0,
            last_source: None,
            last_update_id: 0,
        }
    }

    /// Installs the snapshot's ladders in place of what the book held and
    /// takes its id as the last one seen.
    pub fn reset_from(&mut self, snapshot: &DepthSnapshot)
        ensures
            final(self).wf(),
            final(self).bids@ == apply_levels(Map::<u64, u64>::empty(), snapshot.bids@),
            final(self).asks@ == apply_levels(Map::<u64, u64>::empty(), snapshot.asks@),
            final(self).last_update_id == snapshot.last_update_id,
            final(self).trade_time == old(self).trade_time,
            final(self).event_time == old(self).event_time,
            final(self).last_source == old(self).last_source,
    {
        let mut bids = Ladder::new();
        let mut asks = Ladder::new();
        apply_side(&mut bids, &snapshot.bids);
        apply_side(&mut asks, &snapshot.asks);
        self.bids = bids;
        self.asks = asks;
        self.last_update_id = snapshot.last_update_id;
    }

    /// Takes in one depth update, in arrival order. A stale update leaves the
    /// book as it was. A gap empties both sides: the caller fetches a
    /// snapshot and calls `reset_from` before it applies anything more. An
    /// update in sequence sets its levels, times and source tag, and moves
    /// the last id seen to the update's final id.
    pub fn apply(&mut self, ev: &OrderbookUpdateStream) -> (r: ApplyResult)
        ensures
            apply_post(*old(self), *ev, *final(self), r),
            no_empty_level(final(self).bids@),
            no_empty_level(final(self).asks@),
    {
        self.apply_sequenced(ev, ev.previous_final_update_id)
    }

    /// Takes in the first update after a snapshot was installed. Such an
    /// update is placed by its id range alone, on a derivatives stream too:
    /// it is stale where it ends at or before the snapshot's id, in
    /// sequence where it starts no later than the id that follows, and a
    /// gap otherwise. What it does to the book is what `apply` does.
    pub fn apply_after_snapshot(&mut self, ev: &OrderbookUpdateStream) -> (r: ApplyResult)
        ensures
            apply_post(*old(self), continuing(*ev), *final(self), r),
            no_empty_level(final(self).bids@),
            no_empty_level(final(self).asks@),
    {
        self.apply_sequenced(ev, None)
    }

    /// Takes in `ev` as if `previous` were the id it names as its
    /// predecessor's last.
    fn apply_sequenced(&mut self, ev: &OrderbookUpdateStream, previous: Option<u64>) -> (r:
        ApplyResult)
        ensures
            apply_post(
                *old(self),
                (OrderbookUpdateStream { previous_final_update_id: previous, ..*ev }),
                *final(self),
                r,
            ),
            no_empty_level(final(self).bids@),
            no_empty_level(final(self).asks@),
    {
        proof {
            use_type_invariant(&self.bids);
            use_type_invariant(&self.asks);
            self.lemma_no_empty_level();
        }
        if ev.final_update_id <= self.last_update_id {
            return ApplyResult::DroppedStale;
        }
        let in_sequence = match previous {
            Some(pu) => pu == self.last_update_id,
            None => ev.first_update_id <= self.last_update_id || ev.first_update_id - 1
                == self.last_update_id,
        };
        if !in_sequence {
            self.bids = Ladder::new();
            self.asks = Ladder::new();
            return ApplyResult::Reinitialize;
        }
        apply_side(&mut self.bids, &ev.bids);
        apply_side(&mut self.asks, &ev.asks);
        self.trade_time = ev.trade_time;
        self.event_time = ev.event_time;
        self.last_source = Some(ev.last_update_exchange.clone());
        self.last_update_id = ev.final_update_id;
        proof {
            self.lemma_no_empty_level();
        }
        ApplyResult::Applied
    }

    /// Sets the levels of `update` on both sides and takes its times and
    /// source tag, whatever its update ids say, and returns the change of
    /// size that each update made, bids first. An update without a trade
    /// time or an event time changes nothing and reports no change.
    pub fn update(&mut self, update: &OrderbookUpdateStream) -> (diffs: (
        Vec<LevelDiff>,
        Vec<LevelDiff>,
    ))
        ensures
            final(self).wf(),
            update.trade_time == 0 || update.event_time == 0 ==> {
                &&& *final(self) == *old(self)
                &&& diffs.0@ == Seq::<LevelDiff>::empty()
                &&& diffs.1@ == Seq::<LevelDiff>::empty()
            },
            update.trade_time != 0 && update.event_time != 0 ==> {
                &&& final(self).bids@ == apply_levels(old(self).bids@, update.bids@)
                &&& final(self).asks@ == apply_levels(old(self).asks@, update.asks@)
                &&& final(self).trade_time == update.trade_time
                &&& final(self).event_time == update.event_time
                &&& tagged(final(self).last_source, update.last_update_exchange)
                &&& final(self).last_update_id == old(self).last_update_id
                &&& diffs.0@ == level_diffs(old(self).bids@, update.bids@)
                &&& diffs.1@ == level_diffs(old(self).asks@, update.asks@)
            },
    {
        proof {
            use_type_invariant(&self.bids);
            use_type_invariant(&self.asks);
        }
        if update.trade_time == 0 || update.event_time == 0 {
            return (Vec::new(), Vec::new());
        }
        let bids_diff = apply_side_with_diff(&mut self.bids, &update.bids);
        let asks_diff = apply_side_with_diff(&mut self.asks, &update.asks);
        self.trade_time = update.trade_time;
        self.event_time = update.event_time;
        self.last_source = Some(update.last_update_exchange.clone());
        (bids_diff, asks_diff)
    }

    /// Price and size of the highest bid.
    pub fn best_bid(&self) -> (r: Option<(u64, u64)>)
        ensures
            r is None <==> self.bids@ == Map::<u64, u64>::empty(),
            r == match self.best_bid_level() {
                Some(l) => Some((l.price, l.size)),
                None => None,
            },
            r matches Some((price, size)) ==> {
                &&& self.bids@.contains_key(price)
                &&& self.bids@[price] == size
                &&& forall|p: u64| self.bids@.contains_key(p) ==> p <= price
            },
    {
        match self.bids.last() {
            Some(l) => Some((l.price, l.size)),
            None => {
                assert(self.bids@ =~= Map::<u64, u64>::empty());
                None
            },
        }
    }

    /// Price and size of the lowest ask.
    pub fn best_ask(&self) -> (r: Option<(u64, u64)>)
        ensures
            r is None <==> self.asks@ == Map::<u64, u64>::empty(),
            r == match self.best_ask_level() {
                Some(l) => Some((l.price, l.size)),
                None => None,
            },
            r matches Some((price, size)) ==> {
                &&& self.asks@.contains_key(price)
                &&& self.asks@[price] == size
                &&& forall|p: u64| self.asks@.contains_key(p) ==> price <= p
            },
    {
        match self.asks.first() {
            Some(l) => Some((l.price, l.size)),
            None => {
                assert(self.asks@ =~= Map::<u64, u64>::empty());
                None
            },
        }
    }

    /// A well-formed book holds no level of size zero.
    pub proof fn lemma_no_empty_level(&self)
        requires
            self.wf(),
        ensures
            no_empty_level(self.bids@),
            no_empty_level(self.asks@),
    {
        assert forall|p: u64| self.bids@.contains_key(p) implies #[trigger] self.bids@[p] > 0 by {
            let s = self.bids.levels();
            let i = choose|i: int| 0 <= i < s.len() && #[trigger] s[i].price == p;
            lemma_level_map_at(s, i);
        }
        assert forall|p: u64| self.asks@.contains_key(p) implies #[trigger] self.asks@[p] > 0 by {
            let s = self.asks.levels();
            let i = choose|i: int| 0 <= i < s.len() && #[trigger] s[i].price == p;
            lemma_level_map_at(s, i);
        }
    }
}

/// Applying one update a second time, right after it was applied, drops it
/// as stale and leaves the book as the first application made it.
pub proof fn lemma_apply_twice_is_stale(
    b0: Orderbook,
    ev: OrderbookUpdateStream,
    b1: Orderbook,
    b2: Orderbook,
    r2: ApplyResult,
)
    requires
        apply_post(b0, ev, b1, ApplyResult::Applied),
        apply_post(b1, ev, b2, r2),
    ensures
        r2 == ApplyResult::DroppedStale,
        b2 == b1,
{
}

/// After an applied update the best bid is priced no higher than the best
/// ask, unless the update itself left a bid above an ask.
pub proof fn lemma_applied_book_not_crossed(
    pre: Orderbook,
    ev: OrderbookUpdateStream,
    post: Orderbook,
)
    requires
        apply_post(pre, ev, post, ApplyResult::Applied),
        !crossed(apply_levels(pre.bids@, ev.bids@), apply_levels(pre.asks@, ev.asks@)),
    ensures
        post.best_bid_level() matches Some(b) ==> (post.best_ask_level() matches Some(a) ==> b.price
            <= a.price),
{
    if post.bids.levels().len() > 0 && post.asks.levels().len() > 0 {
        lemma_level_map_at(post.bids.levels(), post.bids.levels().len() - 1);
        lemma_level_map_at(post.asks.levels(), 0);
    }
}

} // verus!
