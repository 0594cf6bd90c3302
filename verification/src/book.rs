//! Features of a book: imbalance at the best levels and within a band
//! around a price, order-flow imbalance between two states of the best
//! levels, the spread, and the levels near a price.
//!
//! Imbalances are ratios between -1 and 1, spread and flow are amounts; all
//! are fixed-point values in units of 10^-8.

use vstd::prelude::*;
use vstd::arithmetic::div_mod::*;
use crate::arith::trunc_div;
use crate::fixed::SCALE;
use crate::ladder::{Ladder, Level};
use crate::orderbook::{LevelDiff, Orderbook};

verus! {

/// Where a summed volume stops: 2^100 units.
pub const VOLUME_CAP: u128 = 0x1_0000_0000_0000_0000_0000_0000;

/// `(bid - ask) / (bid + ask)` as a fixed-point value rounded toward zero;
/// zero where both volumes are zero.
pub open spec fn imbalance_ratio(bid: int, ask: int) -> int {
    if bid + ask == 0 {
        0
    } else {
        trunc_div((bid - ask) * SCALE, bid + ask)
    }
}

/// The size of a level, zero for none.
pub open spec fn size_or_zero(l: Option<Level>) -> u64 {
    match l {
        Some(l) => l.size,
        None => 0,
    }
}

/// The price of a level, zero for none.
pub open spec fn price_or_zero(l: Option<Level>) -> u64 {
    match l {
        Some(l) => l.price,
        None => 0,
    }
}

/// Whether `p` lies within the band of `margin` around `price`: between
/// `price * (1 - margin)` and `price * (1 + margin)`, both ends counted.
pub open spec fn in_band(p: u64, price: u64, margin: u64) -> bool {
    price * (SCALE - margin) <= p * SCALE <= price * (SCALE + margin)
}

/// The sizes of the levels of `s` within the band, summed.
pub open spec fn band_sum(s: Seq<Level>, price: u64, margin: u64) -> nat
    decreases s.len(),
{
    if s.len() == 0 {
        0
    } else {
        band_sum(s.drop_last(), price, margin) + (if in_band(s.last().price, price, margin) {
            s.last().size as nat
        } else {
            0
        })
    }
}

/// A volume held at `VOLUME_CAP`.
pub open spec fn capped_volume(x: nat) -> u128 {
    if x > VOLUME_CAP {
        VOLUME_CAP
    } else {
        x as u128
    }
}

/// The bid term of the order-flow imbalance: the new size where the best
/// bid rose, the change of size where it stayed, minus the old size where
/// it fell. A missing level counts as price zero, size zero.
pub open spec fn bid_flow(prev: Option<Level>, new: Option<Level>) -> int {
    if price_or_zero(new) > price_or_zero(prev) {
        size_or_zero(new) as int
    } else if price_or_zero(new) == price_or_zero(prev) {
        size_or_zero(new) - size_or_zero(prev)
    } else {
        -(size_or_zero(prev) as int)
    }
}

/// The ask term of the order-flow imbalance: minus the old size where the
/// best ask rose, the change of size where it stayed, the new size where it
/// fell.
pub open spec fn ask_flow(prev: Option<Level>, new: Option<Level>) -> int {
    if price_or_zero(new) > price_or_zero(prev) {
        -(size_or_zero(prev) as int)
    } else if price_or_zero(new) == price_or_zero(prev) {
        size_or_zero(new) - size_or_zero(prev)
    } else {
        size_or_zero(new) as int
    }
}

/// The order-flow imbalance between two states of the best levels: bid
/// term minus ask term, positive for net buying pressure.
pub open spec fn flow_imbalance_spec(
    prev_bid: Option<Level>,
    new_bid: Option<Level>,
    prev_ask: Option<Level>,
    new_ask: Option<Level>,
) -> int {
    bid_flow(prev_bid, new_bid) - ask_flow(prev_ask, new_ask)
}

/// Whether a bid at `p` is near `price`: strictly below it and strictly
/// above `price * (1 - margin)`.
pub open spec fn near_below(p: u64, price: u64, margin: u64) -> bool {
    p < price && p * SCALE > price * (SCALE - margin)
}

/// Whether an ask at `p` is near `price`: strictly above it and strictly
/// below `price * (1 + margin)`.
pub open spec fn near_above(p: u64, price: u64, margin: u64) -> bool {
    p > price && p * SCALE < price * (SCALE + margin)
}

/// The ratio of two volumes, each held at `VOLUME_CAP`.
pub fn imbalance_ratio_of(bid: u128, ask: u128) -> (r: i64)
    ensures
        r == imbalance_ratio(
            capped_volume(bid as nat) as int,
            capped_volume(ask as nat) as int,
        ),
        -SCALE <= r <= SCALE,
{
    let bid = if bid > VOLUME_CAP {
        VOLUME_CAP
    } else {
        bid
    };
    let ask = if ask > VOLUME_CAP {
        VOLUME_CAP
    } else {
        ask
    };
    let total = bid + ask;
    if total == 0 {
        return 0;
    }
    let negative = bid < ask;
    let gap: u128 = if negative {
        ask - bid
    } else {
        bid - ask
    };
    assert(gap * SCALE <= total * SCALE <= u128::MAX) by (nonlinear_arith)
        requires
            0 <= gap <= total,
            total <= 2 * VOLUME_CAP,
            SCALE == 100_000_000,
            VOLUME_CAP == 0x1_0000_0000_0000_0000_0000_0000,
    ;
    let q = (gap * (SCALE as u128)) / total;
    proof {
        lemma_div_is_ordered((gap * SCALE) as int, (total * SCALE) as int, total as int);
        lemma_div_multiples_vanish(SCALE as int, total as int);
        lemma_div_pos_is_pos((gap * SCALE) as int, total as int);
        if negative {
            assert((bid - ask) * SCALE == -(gap * SCALE)) by (nonlinear_arith)
                requires
                    gap == ask - bid,
            ;
            assert(gap * SCALE > 0) by (nonlinear_arith)
                requires
                    gap > 0,
                    SCALE > 0,
            ;
        } else {
            assert((bid - ask) * SCALE == gap * SCALE) by (nonlinear_arith)
                requires
                    gap == bid - ask,
            ;
            assert(gap * SCALE >= 0) by (nonlinear_arith)
                requires
                    gap >= 0,
                    SCALE > 0,
            ;
        }
    }
    if negative {
        -(q as i64)
    } else {
        q as i64
    }
}

/// Whether `p` lies within the band of `margin` around `price`.
pub fn in_band_of(p: u64, price: u64, margin: u64) -> (r: bool)
    ensures
        r == in_band(p, price, margin),
{
    assert(0 <= p * SCALE <= u128::MAX && 0 <= price * SCALE <= u128::MAX) by (nonlinear_arith)
        requires
            0 <= p <= u64::MAX,
            0 <= price <= u64::MAX,
            SCALE == 100_000_000,
    ;
    let scaled: u128 = (p as u128) * (SCALE as u128);
    let above = if margin >= SCALE {
        assert(price * (SCALE - margin) <= 0) by (nonlinear_arith)
            requires
                price >= 0,
                SCALE - margin <= 0,
        ;
        true
    } else {
        assert(0 <= price * (SCALE - margin) <= u128::MAX) by (nonlinear_arith)
            requires
                0 <= price <= u64::MAX,
                0 < SCALE - margin <= 100_000_000,
        ;
        (price as u128) * ((SCALE - margin) as u128) <= scaled
    };
    let below = match (price as u128).checked_mul((SCALE as u128) + (margin as u128)) {
        Some(upper) => scaled <= upper,
        None => true,
    };
    above && below
}

/// The sizes of the levels of a side within the band around `price`,
/// summed and held at `VOLUME_CAP`.
pub fn band_volume(side: &Ladder, price: u64, margin: u64) -> (r: u128)
    ensures
        r == capped_volume(band_sum(side.levels(), price, margin)),
        r <= VOLUME_CAP,
{
    let n = side.len();
    let mut acc: u128 = 0;
    let mut i: usize = 0;
    assert(side.levels().take(0) =~= Seq::empty());
    while i < n
        invariant
            i <= n,
            n == side.levels().len(),
            acc == capped_volume(band_sum(side.levels().take(i as int), price, margin)),
        decreases n - i,
    {
        proof {
            assert(side.levels().take(i + 1).drop_last() =~= side.levels().take(i as int));
            assert(side.levels().take(i + 1).last() == side.levels()[i as int]);
        }
        let l = side.level(i);
        if in_band_of(l.price, price, margin) {
            acc = if acc + (l.size as u128) > VOLUME_CAP {
                VOLUME_CAP
            } else {
                acc + (l.size as u128)
            };
        }
        i = i + 1;
    }
    assert(side.levels().take(n as int) =~= side.levels());
    acc
}

/// The imbalance of the sizes at the two best levels; a missing side
/// counts as size zero.
pub fn best_level_imbalance(best_bid: Option<Level>, best_ask: Option<Level>) -> (r: i64)
    ensures
        r == imbalance_ratio(size_or_zero(best_bid) as int, size_or_zero(best_ask) as int),
        -SCALE <= r <= SCALE,
{
    let bid: u64 = match best_bid {
        Some(l) => l.size,
        None => 0,
    };
    let ask: u64 = match best_ask {
        Some(l) => l.size,
        None => 0,
    };
    imbalance_ratio_of(bid as u128, ask as u128)
}

/// The order-flow imbalance between two states of the best levels.
pub fn flow_imbalance(
    prev_bid: Option<Level>,
    new_bid: Option<Level>,
    prev_ask: Option<Level>,
    new_ask: Option<Level>,
) -> (r: i128)
    ensures
        r == flow_imbalance_spec(prev_bid, new_bid, prev_ask, new_ask),
{
    let (pbp, pbq) = match prev_bid {
        Some(l) => (l.price, l.size as i128),
        None => (0, 0),
    };
    let (nbp, nbq) = match new_bid {
        Some(l) => (l.price, l.size as i128),
        None => (0, 0),
    };
    let (pap, paq) = match prev_ask {
        Some(l) => (l.price, l.size as i128),
        None => (0, 0),
    };
    let (nap, naq) = match new_ask {
        Some(l) => (l.price, l.size as i128),
        None => (0, 0),
    };
    let bid_term: i128 = if nbp > pbp {
        nbq
    } else if nbp == pbp {
        nbq - pbq
    } else {
        -pbq
    };
    let ask_term: i128 = if nap > pap {
        -paq
    } else if nap == pap {
        naq - paq
    } else {
        naq
    };
    bid_term - ask_term
}

/// Whether a bid at `p` is near `price`.
pub fn near_below_of(p: u64, price: u64, margin: u64) -> (r: bool)
    ensures
        r == near_below(p, price, margin),
{
    if p >= price {
        return false;
    }
    if margin >= SCALE {
        // The lower edge of the band lies at or below zero.
        assert((p * SCALE > price * (SCALE - margin)) == (margin > SCALE || p > 0))
            by (nonlinear_arith)
            requires
                0 <= p < price,
                SCALE - margin <= 0,
                SCALE == 100_000_000,
        ;
        return margin > SCALE || p > 0;
    }
    assert(0 <= p * SCALE <= u128::MAX && 0 <= price * (SCALE - margin) <= u128::MAX)
        by (nonlinear_arith)
        requires
            0 <= p <= u64::MAX,
            0 <= price <= u64::MAX,
            0 < SCALE - margin <= 100_000_000,
            SCALE == 100_000_000,
    ;
    (p as u128) * (SCALE as u128) > (price as u128) * ((SCALE - margin) as u128)
}

/// Whether an ask at `p` is near `price`.
pub fn near_above_of(p: u64, price: u64, margin: u64) -> (r: bool)
    ensures
        r == near_above(p, price, margin),
{
    if p <= price {
        return false;
    }
    assert(0 <= p * SCALE <= u128::MAX) by (nonlinear_arith)
        requires
            0 <= p <= u64::MAX,
            SCALE == 100_000_000,
    ;
    match (price as u128).checked_mul((SCALE as u128) + (margin as u128)) {
        Some(upper) => (p as u128) * (SCALE as u128) < upper,
        None => true,
    }
}

/// The bids of a side that are near `price`, lowest first.
pub fn near_bids(side: &Ladder, price: u64, margin: u64) -> (r: Vec<Level>)
    ensures
        r@ == side.levels().filter(|l: Level| near_below(l.price, price, margin)),
{
    let n = side.len();
    let mut out: Vec<Level> = Vec::new();
    let mut i: usize = 0;
    let ghost keep = |l: Level| near_below(l.price, price, margin);
    assert(side.levels().take(0) =~= Seq::empty());
    while i < n
        invariant
            i <= n,
            n == side.levels().len(),
            keep == |l: Level| near_below(l.price, price, margin),
            out@ == side.levels().take(i as int).filter(keep),
        decreases n - i,
    {
        proof {
            assert(side.levels().take(i + 1).drop_last() =~= side.levels().take(i as int));
            assert(side.levels().take(i + 1).last() == side.levels()[i as int]);
            reveal(Seq::filter);
        }
        let l = side.level(i);
        if near_below_of(l.price, price, margin) {
            out.push(l);
        }
        i = i + 1;
    }
    assert(side.levels().take(n as int) =~= side.levels());
    out
}

/// The asks of a side that are near `price`, lowest first.
pub fn near_asks(side: &Ladder, price: u64, margin: u64) -> (r: Vec<Level>)
    ensures
        r@ == side.levels().filter(|l: Level| near_above(l.price, price, margin)),
{
    let n = side.len();
    let mut out: Vec<Level> = Vec::new();
    let mut i: usize = 0;
    let ghost keep = |l: Level| near_above(l.price, price, margin);
    assert(side.levels().take(0) =~= Seq::empty());
    while i < n
        invariant
            i <= n,
            n == side.levels().len(),
            keep == |l: Level| near_above(l.price, price, margin),
            out@ == side.levels().take(i as int).filter(keep),
        decreases n - i,
    {
        proof {
            assert(side.levels().take(i + 1).drop_last() =~= side.levels().take(i as int));
            assert(side.levels().take(i + 1).last() == side.levels()[i as int]);
            reveal(Seq::filter);
        }
        let l = side.level(i);
        if near_above_of(l.price, price, margin) {
            out.push(l);
        }
        i = i + 1;
    }
    assert(side.levels().take(n as int) =~= side.levels());
    out
}

/// A book as the feature functions read it: both sides, the venue's times,
/// and the best levels as they stood before the latest update.
pub struct OrderbookData {
    pub best_bid: Option<Level>,
    pub best_ask: Option<Level>,
    pub bids: Ladder,
    pub asks: Ladder,
    /// The changes of size that the latest update made on each side.
    pub bids_diff: Vec<LevelDiff>,
    pub asks_diff: Vec<LevelDiff>,
    pub trade_time: u64,
    pub event_time: u64,
}

/// The changes of `diffs` at prices near `price` from below, in their order.
pub fn near_bid_diffs(diffs: &Vec<LevelDiff>, price: u64, margin: u64) -> (r: Vec<LevelDiff>)
    ensures
        r@ == diffs@.filter(|d: LevelDiff| near_below(d.price, price, margin)),
{
    let n = diffs.len();
    let mut out: Vec<LevelDiff> = Vec::new();
    let mut i: usize = 0;
    let ghost keep = |d: LevelDiff| near_below(d.price, price, margin);
    assert(diffs@.take(0) =~= Seq::empty());
    while i < n
        invariant
            i <= n,
            n == diffs@.len(),
            keep == |d: LevelDiff| near_below(d.price, price, margin),
            out@ == diffs@.take(i as int).filter(keep),
        decreases n - i,
    {
        proof {
            assert(diffs@.take(i + 1).drop_last() =~= diffs@.take(i as int));
            assert(diffs@.take(i + 1).last() == diffs@[i as int]);
            reveal(Seq::filter);
        }
        let d = diffs[i];
        if near_below_of(d.price, price, margin) {
            out.push(d);
        }
        i = i + 1;
    }
    assert(diffs@.take(n as int) =~= diffs@);
    out
}

/// The changes of `diffs` at prices near `price` from above, in their order.
pub fn near_ask_diffs(diffs: &Vec<LevelDiff>, price: u64, margin: u64) -> (r: Vec<LevelDiff>)
    ensures
        r@ == diffs@.filter(|d: LevelDiff| near_above(d.price, price, margin)),
{
    let n = diffs.len();
    let mut out: Vec<LevelDiff> = Vec::new();
    let mut i: usize = 0;
    let ghost keep = |d: LevelDiff| near_above(d.price, price, margin);
    assert(diffs@.take(0) =~= Seq::empty());
    while i < n
        invariant
            i <= n,
            n == diffs@.len(),
            keep == |d: LevelDiff| near_above(d.price, price, margin),
            out@ == diffs@.take(i as int).filter(keep),
        decreases n - i,
    {
        proof {
            assert(diffs@.take(i + 1).drop_last() =~= diffs@.take(i as int));
            assert(diffs@.take(i + 1).last() == diffs@[i as int]);
            reveal(Seq::filter);
        }
        let d = diffs[i];
        if near_above_of(d.price, price, margin) {
            out.push(d);
        }
        i = i + 1;
    }
    assert(diffs@.take(n as int) =~= diffs@);
    out
}

impl OrderbookData {
    /// Both sides are in price order and hold no empty level.
    pub open spec fn wf(&self) -> bool {
        self.bids.wf() && self.asks.wf()
    }

    /// The highest bid of the book as it stands.
    pub open spec fn top_bid(&self) -> Option<Level> {
        if self.bids.levels().len() == 0 {
            None
        } else {
            Some(self.bids.levels().last())
        }
    }

    /// The lowest ask of the book as it stands.
    pub open spec fn top_ask(&self) -> Option<Level> {
        if self.asks.levels().len() == 0 {
            None
        } else {
            Some(self.asks.levels()[0])
        }
    }

    /// The book's sides and times, with the best levels that were cached
    /// before.
    pub fn from_book(book: &Orderbook, best_bid: Option<Level>, best_ask: Option<Level>) -> (r:
        Self)
        ensures
            r.wf(),
            r.bids.levels() == book.bids.levels(),
            r.asks.levels() == book.asks.levels(),
            r.best_bid == best_bid,
            r.best_ask == best_ask,
            r.bids_diff@ == Seq::<LevelDiff>::empty(),
            r.asks_diff@ == Seq::<LevelDiff>::empty(),
            r.trade_time == book.trade_time,
            r.event_time == book.event_time,
    {
        OrderbookData {
            best_bid,
            best_ask,
            bids: book.bids.copy(),
            asks: book.asks.copy(),
            bids_diff: Vec::new(),
            asks_diff: Vec::new(),
            trade_time: book.trade_time,
            event_time: book.event_time,
        }
    }

    /// The imbalance of the sizes at the best bid and the best ask.
    pub fn orderbook_imbalance(&self) -> (r: i64)
        ensures
            r == imbalance_ratio(
                size_or_zero(self.top_bid()) as int,
                size_or_zero(self.top_ask()) as int,
            ),
            -SCALE <= r <= SCALE,
    {
        best_level_imbalance(self.bids.last(), self.asks.first())
    }

    /// The order-flow imbalance from the cached best levels to the best
    /// levels of the book as it stands. Call it before
    /// `update_best_bid_ask`, which overwrites the cache.
    pub fn orderflow_imbalance(&self) -> (r: i128)
        ensures
            r == flow_imbalance_spec(self.best_bid, self.top_bid(), self.best_ask, self.top_ask()),
    {
        flow_imbalance(self.best_bid, self.bids.last(), self.best_ask, self.asks.first())
    }

    /// Caches the best levels of the book as it stands.
    pub fn update_best_bid_ask(&mut self)
        ensures
            final(self).best_bid == old(self).top_bid(),
            final(self).best_ask == old(self).top_ask(),
            final(self).bids == old(self).bids,
            final(self).asks == old(self).asks,
            final(self).bids_diff == old(self).bids_diff,
            final(self).asks_diff == old(self).asks_diff,
            final(self).trade_time == old(self).trade_time,
            final(self).event_time == old(self).event_time,
    {
        self.best_bid = self.bids.last();
        self.best_ask = self.asks.first();
    }

    /// Best ask minus best bid, from the cached best levels; a missing
    /// level counts as price zero.
    pub fn spread(&self) -> (r: i128)
        ensures
            r == price_or_zero(self.best_ask) - price_or_zero(self.best_bid),
    {
        let ask: i128 = match self.best_ask {
            Some(l) => l.price as i128,
            None => 0,
        };
        let bid: i128 = match self.best_bid {
            Some(l) => l.price as i128,
            None => 0,
        };
        ask - bid
    }

    /// The imbalance of the sizes within the band of `margin` around
    /// `price`, each side summed and held at `VOLUME_CAP`.
    pub fn orderbook_imbalance_slack(&self, price: u64, margin: u64) -> (r: i64)
        ensures
            r == imbalance_ratio(
                capped_volume(band_sum(self.bids.levels(), price, margin)) as int,
                capped_volume(band_sum(self.asks.levels(), price, margin)) as int,
            ),
            -SCALE <= r <= SCALE,
    {
        let bids = band_volume(&self.bids, price, margin);
        let asks = band_volume(&self.asks, price, margin);
        imbalance_ratio_of(bids, asks)
    }

    /// The bids strictly below `price` and the asks strictly above it, each
    /// within `margin` of it, lowest price first.
    pub fn near_price_bid_ask_activity(&self, price: u64, margin: u64) -> (r: (
        Vec<Level>,
        Vec<Level>,
    ))
        ensures
            r.0@ == self.bids.levels().filter(|l: Level| near_below(l.price, price, margin)),
            r.1@ == self.asks.levels().filter(|l: Level| near_above(l.price, price, margin)),
    {
        (near_bids(&self.bids, price, margin), near_asks(&self.asks, price, margin))
    }

    /// The latest changes of size at bid prices strictly below `price` and
    /// at ask prices strictly above it, each within `margin` of it, in the
    /// order in which the update made them.
    pub fn near_price_bid_ask_diff_activity(&self, price: u64, margin: u64) -> (r: (
        Vec<LevelDiff>,
        Vec<LevelDiff>,
    ))
        ensures
            r.0@ == self.bids_diff@.filter(|d: LevelDiff| near_below(d.price, price, margin)),
            r.1@ == self.asks_diff@.filter(|d: LevelDiff| near_above(d.price, price, margin)),
    {
        (
            near_bid_diffs(&self.bids_diff, price, margin),
            near_ask_diffs(&self.asks_diff, price, margin),
        )
    }
}

impl Orderbook {
    /// The imbalance of the sizes at the best bid and the best ask; zero
    /// where the book is empty.
    pub fn imbalance(&self) -> (r: i64)
        ensures
            r == imbalance_ratio(
                size_or_zero(self.best_bid_level()) as int,
                size_or_zero(self.best_ask_level()) as int,
            ),
            -SCALE <= r <= SCALE,
    {
        best_level_imbalance(self.bids.last(), self.asks.first())
    }

    /// The imbalance of the sizes within the band of `margin` around
    /// `price`, each side summed and held at `VOLUME_CAP`.
    pub fn imbalance_ranged(&self, price: u64, margin: u64) -> (r: i64)
        ensures
            r == imbalance_ratio(
                capped_volume(band_sum(self.bids.levels(), price, margin)) as int,
                capped_volume(band_sum(self.asks.levels(), price, margin)) as int,
            ),
            -SCALE <= r <= SCALE,
    {
        imbalance_ratio_of(
            band_volume(&self.bids, price, margin),
            band_volume(&self.asks, price, margin),
        )
    }

    /// The bids strictly below `price` and the asks strictly above it, each
    /// within `margin` of it, lowest price first.
    pub fn near_price_levels(&self, price: u64, margin: u64) -> (r: (Vec<Level>, Vec<Level>))
        ensures
            r.0@ == self.bids.levels().filter(|l: Level| near_below(l.price, price, margin)),
            r.1@ == self.asks.levels().filter(|l: Level| near_above(l.price, price, margin)),
    {
        (near_bids(&self.bids, price, margin), near_asks(&self.asks, price, margin))
    }
}

} // verus!
