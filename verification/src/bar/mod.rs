//! Information-driven bars: bars that close when a running imbalance
//! crosses an adaptive threshold.
//!
//! A bar engine is a live `Bar` and the history of its recent thresholds.
//! The first bar (the genesis bar) closes on elapsed time; every later bar
//! closes when the magnitude of its imbalance reaches the live threshold.
//! At each close two running estimates are blended with the closed bar's
//! figures, and their product, clamped against the history, becomes the
//! base threshold of the next bar. Within a bar the live threshold is the
//! base threshold times a decay factor that falls as ticks are counted.

pub mod candle;
pub mod dollar_imbalance;
pub mod laws;
pub mod tick_imbalance;
pub mod volume_imbalance;
pub mod vwap;

use vstd::prelude::*;
use vstd::arithmetic::div_mod::*;
use std::collections::VecDeque;
use crate::arith::{
    clip,
    div_count,
    lemma_mul_fixed_fraction,
    lemma_mul_fixed_nonneg,
    mul_fixed,
    mul_fixed_spec,
    sat_abs,
    sat_add,
    trunc_div,
};
use crate::bar::candle::Candle;
use crate::data::market::MarketData;
use crate::decay::{decay_factor, decay_factor_spec};
use crate::fixed::{magnitude, magnitude_of, SCALE};

verus! {

/// Time, in milliseconds, that the first bar collects before it may close.
pub const GENESIS_COLLECT_PERIOD: u64 = 5_000;

/// Weight of the newest closed bar in the running estimates: 0.9.
pub const EWMA_FACTOR: u64 = 90_000_000;

/// Number of past thresholds that the clamp looks at.
pub const THRESHOLD_COUNT: usize = 50;

/// Draws a random identifier from `uuid::Uuid::new_v4` and hands it back as
/// a number. Nothing is claimed of the value: two calls may give any two
/// numbers. The call fails only where the system has no randomness to give.
#[verifier::external_body]
fn fresh_id() -> (id: u128) {
    uuid::Uuid::new_v4().as_u128()
}

/// A bar: its identity, its candle, its imbalance and the threshold state
/// that is carried from bar to bar. Prices and sizes count units of 10^-8,
/// and so do the imbalance, the threshold and the two estimates.
#[derive(Clone, Copy, Debug, PartialEq, Eq, Structural)]
pub struct Bar {
    pub id: u128,
    pub candle: Candle,
    /// Signed imbalance gathered since the bar opened.
    pub imb: i128,
    /// Whether the bar has opened and not yet closed.
    pub candle_opened: bool,
    /// The threshold that the imbalance is held against: the base
    /// threshold, decayed for the ticks the bar has counted.
    pub imb_thres: i128,
    /// The threshold as the last closure set it, before any decay.
    pub imb_thres_base: i128,
    /// Running estimate of the imbalance per tick.
    pub ewma_imb_current: i128,
    /// Running estimate of the ticks per bar.
    pub ewma_t_current: i128,
    /// Weight of the newest bar in both estimates, between zero and one.
    pub ewma_factor: u64,
    /// Time that the genesis bar collects before it may close.
    pub genesis_collect_period: u64,
    /// The average price as of the last tick that carried volume.
    pub vwap: u128,
    /// Signed flow summed over every tick since the engine started.
    pub cvd: i128,
}

/// What one tick makes of a bar engine: the live bar and the threshold
/// history after it, and the bar that closed on it, if one did.
pub struct BarStep {
    pub bar: Bar,
    pub history: Seq<i128>,
    pub completed: Option<Bar>,
}

/// The sign of a price change: 1 for up, -1 for down, 0 for none.
pub open spec fn price_sign(price: u64, prev_price: u64) -> int {
    if price > prev_price {
        1
    } else if price < prev_price {
        -1
    } else {
        0
    }
}

/// The price that a tick's change is measured against: the close before it,
/// or the tick's own price where there is none.
pub open spec fn previous_close(bar: Bar, mkt: MarketData) -> u64 {
    match bar.candle.pc {
        Some(pc) => pc,
        None => mkt.price,
    }
}

/// The larger of the values of `h`; zero for none.
pub open spec fn max_of(h: Seq<i128>) -> i128
    decreases h.len(),
{
    if h.len() == 0 {
        0
    } else if h.len() == 1 {
        h[0]
    } else if h.last() > max_of(h.drop_last()) {
        h.last()
    } else {
        max_of(h.drop_last())
    }
}

/// The smaller of the values of `h`; zero for none.
pub open spec fn min_of(h: Seq<i128>) -> i128
    decreases h.len(),
{
    if h.len() == 0 {
        0
    } else if h.len() == 1 {
        h[0]
    } else if h.last() < min_of(h.drop_last()) {
        h.last()
    } else {
        min_of(h.drop_last())
    }
}

/// No value of `h` is negative.
pub open spec fn all_nonneg(h: Seq<i128>) -> bool {
    forall|i: int| 0 <= i < h.len() ==> #[trigger] h[i] >= 0
}

/// `max_of` is a value of the sequence and no value exceeds it; `min_of`
/// likewise from below.
pub proof fn lemma_max_min_of(h: Seq<i128>)
    requires
        h.len() > 0,
    ensures
        h.contains(max_of(h)),
        h.contains(min_of(h)),
        forall|i: int| 0 <= i < h.len() ==> min_of(h) <= #[trigger] h[i] <= max_of(h),
    decreases h.len(),
{
    if h.len() == 1 {
        assert(h[0] == max_of(h));
    } else {
        let front = h.drop_last();
        lemma_max_min_of(front);
        let i_max = choose|i: int| 0 <= i < front.len() && front[i] == max_of(front);
        let i_min = choose|i: int| 0 <= i < front.len() && front[i] == min_of(front);
        assert(h[i_max] == front[i_max]);
        assert(h[i_min] == front[i_min]);
        assert(h[h.len() - 1] == h.last());
        assert forall|i: int| 0 <= i < h.len() implies min_of(h) <= #[trigger] h[i] <= max_of(
            h,
        ) by {
            if i < front.len() {
                assert(front[i] == h[i]);
            }
        }
    }
}

/// The history after `x` joins it: the oldest value leaves first where
/// `THRESHOLD_COUNT` values are held already.
pub open spec fn pushed(h: Seq<i128>, x: i128) -> Seq<i128> {
    if h.len() >= THRESHOLD_COUNT {
        h.drop_first().push(x)
    } else {
        h.push(x)
    }
}

/// Half of `x`.
pub open spec fn half(x: i128) -> i128 {
    clip(trunc_div(x as int, 2))
}

/// One and a half times `x`.
pub open spec fn one_and_half(x: i128) -> i128 {
    clip(x + half(x))
}

/// The floor of the clamp: half the smallest threshold of the history.
pub open spec fn clamp_floor(h: Seq<i128>) -> i128 {
    half(min_of(h))
}

/// The ceiling of the clamp: one and a half times the largest threshold of
/// the history.
pub open spec fn clamp_ceiling(h: Seq<i128>) -> i128 {
    one_and_half(max_of(h))
}

/// The candidate threshold held to the clamp window of a history that is
/// not empty: first down to the ceiling, then up to the floor.
pub open spec fn clamp_threshold(candidate: i128, h: Seq<i128>) -> i128 {
    if h.len() == 0 {
        candidate
    } else {
        let capped = if candidate < clamp_ceiling(h) {
            candidate
        } else {
            clamp_ceiling(h)
        };
        if capped > clamp_floor(h) {
            capped
        } else {
            clamp_floor(h)
        }
    }
}

/// One step of a running estimate: the new sample weighted by `lambda`,
/// the old estimate by what is left to one.
pub open spec fn ewma_next(lambda: u64, sample: i128, prev: i128) -> i128 {
    clip(
        mul_fixed_spec(sample as int, lambda as int) + mul_fixed_spec(
            prev as int,
            SCALE - lambda,
        ),
    )
}

/// The threshold that two estimates call for: the magnitude of the
/// imbalance per tick, times the ticks per bar.
pub open spec fn nominal_threshold(ewma_imb: i128, ewma_t: i128) -> i128 {
    mul_fixed_spec(clip(magnitude(ewma_imb as int) as int) as int, ewma_t as int)
}

impl Bar {
    /// The candle is well formed, an open bar has taken a tick, the two
    /// thresholds and the tick estimate are not negative, the weight is at
    /// most one, and the stored average is the one its sums give.
    pub open spec fn wf(self) -> bool {
        &&& self.candle.wf()
        &&& self.candle_opened ==> self.candle.started()
        &&& self.imb_thres >= 0
        &&& self.imb_thres_base >= 0
        &&& self.ewma_t_current >= 0
        &&& self.ewma_factor <= SCALE
        &&& self.candle.vwap.value() matches Some(v) ==> self.vwap == v
    }

    /// The bar as a tick finds it: an open bar as it is, a closed one
    /// opened afresh, with everything cleared but its identity, its close,
    /// its threshold state, its stored average and its summed flow.
    pub open spec fn opened(self) -> Bar {
        if self.candle_opened {
            self
        } else {
            Bar { candle: self.candle.cleared(), imb: 0, candle_opened: true, ..self }
        }
    }

    /// The bar after the tick `mkt`, which adds `incr` to the imbalance and
    /// `cvd_incr` to the summed flow.
    pub open spec fn ticked(self, mkt: MarketData, incr: i128, cvd_incr: i128) -> Bar {
        let b = self.opened();
        let candle = b.candle.updated(
            mkt.trade_time,
            mkt.price,
            mkt.quantity,
            mkt.buyer_market_maker,
        );
        Bar {
            candle,
            imb: clip(b.imb + incr),
            cvd: clip(b.cvd + cvd_incr),
            vwap: match candle.vwap.value() {
                Some(v) => v,
                None => b.vwap,
            },
            ..b
        }
    }

    /// The bar after `reset`, but for its new identity.
    pub open spec fn cleared(self, id: u128) -> Bar {
        Bar { id, candle: self.candle.cleared(), imb: 0, candle_opened: false, ..self }
    }

    /// The imbalance per tick; zero for a bar that has counted no tick.
    pub open spec fn mean_imbalance(self) -> i128 {
        if self.candle.tick_count == 0 {
            0
        } else {
            clip(trunc_div(self.imb as int, self.candle.tick_count as int))
        }
    }

    /// The tick count as a fixed-point value.
    pub open spec fn ticks_fixed(self) -> i128 {
        (self.candle.tick_count * SCALE) as i128
    }

    /// The bar with both estimates blended with its own figures.
    pub open spec fn with_new_estimates(self) -> Bar {
        Bar {
            ewma_imb_current: ewma_next(
                self.ewma_factor,
                self.mean_imbalance(),
                self.ewma_imb_current,
            ),
            ewma_t_current: ewma_next(self.ewma_factor, self.ticks_fixed(), self.ewma_t_current),
            ..self
        }
    }

    /// Whether the genesis bar is due to close: it has collected for its
    /// period and its imbalance is not zero.
    pub open spec fn genesis_due(self) -> bool {
        &&& self.candle.ts is Some
        &&& self.candle.te is Some
        &&& self.candle.te->0 - self.candle.ts->0 >= self.genesis_collect_period
        &&& self.imb != 0
    }

    /// The threshold that the genesis bar seeds as it closes: the
    /// magnitude of its own imbalance per tick, times the tick estimate
    /// after the blend.
    pub open spec fn genesis_threshold(self) -> i128 {
        mul_fixed_spec(
            clip(magnitude(self.mean_imbalance() as int) as int) as int,
            self.with_new_estimates().ewma_t_current as int,
        )
    }

    /// The bar with its live threshold set for the ticks it has counted:
    /// the base threshold times the decay factor of the tick count. The
    /// base threshold stays as the last closure set it.
    pub open spec fn decayed(self) -> Bar {
        Bar {
            imb_thres: mul_fixed_spec(
                self.imb_thres_base as int,
                decay_factor_spec(self.candle.tick_count),
            ),
            ..self
        }
    }

    /// Whether the imbalance has reached the threshold.
    pub open spec fn crossed(self) -> bool {
        magnitude(self.imb as int) >= self.imb_thres
    }

    /// What holds of every bar that an engine hands out as closed: start no
    /// later than end, open and close between low and high, and the
    /// average price times the volume within one unit of volume of the
    /// summed price-volume.
    pub open spec fn closed_bar_holds(self) -> bool {
        &&& self.wf()
        &&& self.candle.started()
        &&& self.candle.ts->0 <= self.candle.te->0
        &&& self.candle.pl->0 <= self.candle.po->0 <= self.candle.ph->0
        &&& self.candle.pl->0 <= self.candle.pc->0 <= self.candle.ph->0
        &&& self.candle.tick_count >= 1
        &&& self.vwap_holds()
    }

    /// The stored average against its sums: with volume, the average times
    /// the volume falls short of the summed price-volume by less than one
    /// unit of volume; without volume there is no price-volume either.
    pub open spec fn vwap_holds(self) -> bool {
        let v = self.candle.vwap;
        if v.cumul_volume == 0 {
            v.cumul_price_volume == 0
        } else {
            self.vwap * v.cumul_volume <= v.cumul_price_volume < self.vwap * v.cumul_volume
                + v.cumul_volume
        }
    }

    /// A bar that has seen nothing, under the identity `id`: no threshold
    /// yet, both estimates at zero, the default weight and collect period.
    pub fn with_id(id: u128) -> (r: Self)
        ensures
            r == Bar::with_id_spec(id),
            r.wf(),
    {
        Bar {
            id,
            candle: Candle::new(),
            imb: 0,
            candle_opened: false,
            imb_thres: 0,
            imb_thres_base: 0,
            ewma_imb_current: 0,
            ewma_t_current: 0,
            ewma_factor: EWMA_FACTOR,
            genesis_collect_period: GENESIS_COLLECT_PERIOD,
            vwap: 0,
            cvd: 0,
        }
    }

    /// A bar that has seen nothing, under a fresh random identity.
    pub fn new() -> (r: Self)
        ensures
            r == Bar::with_id_spec(r.id),
            r.wf(),
    {
        Bar::with_id(fresh_id())
    }

    /// What `with_id` returns.
    pub open spec fn with_id_spec(id: u128) -> Bar {
        Bar {
            id,
            candle: Candle::new_spec(),
            imb: 0,
            candle_opened: false,
            imb_thres: 0,
            imb_thres_base: 0,
            ewma_imb_current: 0,
            ewma_t_current: 0,
            ewma_factor: EWMA_FACTOR,
            genesis_collect_period: GENESIS_COLLECT_PERIOD,
            vwap: 0,
            cvd: 0,
        }
    }

    /// Takes one tick: opens the bar afresh where it was closed, adds the
    /// tick to the candle and the two increments to the imbalance and the
    /// summed flow, and stores the average price where there is volume.
    pub fn tick(&mut self, mkt: &MarketData, incr: i128, cvd_incr: i128)
        ensures
            *final(self) == old(self).ticked(*mkt, incr, cvd_incr),
            final(self).candle_opened,
            final(self).candle.started(),
            final(self).candle.tick_count >= 1,
            old(self).wf() ==> final(self).closed_bar_holds(),
    {
        if !self.candle_opened {
            self.candle.clear();
            self.imb = 0;
            self.candle_opened = true;
        }
        self.candle.update(mkt.trade_time, mkt.price, mkt.quantity, mkt.buyer_market_maker);
        self.imb = sat_add(self.imb, incr);
        self.cvd = sat_add(self.cvd, cvd_incr);
        match self.candle.vwap.vwap() {
            Some(v) => {
                self.vwap = v;
            },
            None => {},
        }
    }

    /// Clears the bar for the next one under the identity `id`: times,
    /// open, high, low, imbalance, tick count, volumes and the average's
    /// sums go; the close, the threshold state, the stored average and the
    /// summed flow stay.
    pub fn reset_with_id(&mut self, id: u128)
        ensures
            *final(self) == old(self).cleared(id),
            old(self).wf() ==> final(self).wf(),
    {
        self.id = id;
        self.candle.clear();
        self.imb = 0;
        self.candle_opened = false;
    }

    /// Clears the bar for the next one and gives it a fresh random
    /// identity.
    pub fn reset(&mut self)
        ensures
            *final(self) == old(self).cleared(final(self).id),
            old(self).wf() ==> final(self).wf(),
    {
        self.reset_with_id(fresh_id());
    }

    /// Ticks per millisecond over the bar's extent, as a fixed-point value
    /// rounded down; none while the bar has no extent.
    pub fn aggressive(&self) -> (r: Option<u128>)
        ensures
            r == self.aggressive_spec(),
    {
        match (self.candle.ts, self.candle.te) {
            (Some(ts), Some(te)) => {
                if te > ts {
                    let ticks: u128 = (self.candle.tick_count as u128) * (SCALE as u128);
                    Some(ticks / ((te - ts) as u128))
                } else {
                    None
                }
            },
            _ => None,
        }
    }

    /// What `aggressive` returns.
    pub open spec fn aggressive_spec(self) -> Option<u128> {
        if self.candle.ts is Some && self.candle.te is Some && self.candle.te->0
            > self.candle.ts->0 {
            Some(
                ((self.candle.tick_count * SCALE) / (self.candle.te->0 - self.candle.ts->0)) as u128,
            )
        } else {
            None
        }
    }

    /// What `aggressive_vol` returns.
    pub open spec fn aggressive_vol_spec(self) -> Option<u128> {
        if self.candle.ts is Some && self.candle.te is Some && self.candle.te->0
            > self.candle.ts->0 {
            let traded = self.candle.vwap.cumul_price_volume / (SCALE as u128);
            let weighted = self.candle.tick_count * traded;
            let capped = if weighted > u128::MAX {
                u128::MAX as int
            } else {
                weighted
            };
            Some((capped / (self.candle.te->0 - self.candle.ts->0)) as u128)
        } else {
            None
        }
    }

    /// Tick count times traded value per millisecond over the bar's
    /// extent, rounded down; none while the bar has no extent. The traded
    /// value is the summed price-volume in units of 10^-8, and the product
    /// stops at `u128::MAX`.
    pub fn aggressive_vol(&self) -> (r: Option<u128>)
        ensures
            r == self.aggressive_vol_spec(),
    {
        match (self.candle.ts, self.candle.te) {
            (Some(ts), Some(te)) => {
                if te > ts {
                    let traded = self.candle.vwap.cumul_price_volume / (SCALE as u128);
                    let weighted = match (self.candle.tick_count as u128).checked_mul(traded) {
                        Some(w) => w,
                        None => u128::MAX,
                    };
                    Some(weighted / ((te - ts) as u128))
                } else {
                    None
                }
            },
            _ => None,
        }
    }
}

/// The engine's state is sound: the bar is well formed, and the history
/// holds at most `THRESHOLD_COUNT` thresholds, none of them negative.
pub open spec fn engine_wf(bar: Bar, history: Seq<i128>) -> bool {
    &&& bar.wf()
    &&& history.len() <= THRESHOLD_COUNT
    &&& all_nonneg(history)
}

/// One tick of the engine before its genesis bar has closed. The bar takes
/// the tick. Where the genesis bar is then due, it closes: it is handed out
/// as it stands, both estimates are blended with its figures, the magnitude
/// of its imbalance per tick times the blended tick estimate becomes the
/// threshold and joins the history, and the live bar is marked closed.
pub open spec fn genesis_step(
    bar: Bar,
    history: Seq<i128>,
    mkt: MarketData,
    incr: i128,
    cvd_incr: i128,
) -> BarStep {
    let t = bar.ticked(mkt, incr, cvd_incr);
    if t.genesis_due() {
        let e = t.with_new_estimates();
        let threshold = t.genesis_threshold();
        BarStep {
            bar: Bar {
                imb_thres: threshold,
                imb_thres_base: threshold,
                candle_opened: false,
                ..e
            },
            history: pushed(history, threshold),
            completed: Some(t),
        }
    } else {
        BarStep { bar: t, history, completed: None }
    }
}

/// One tick of the engine after its genesis bar. The bar takes the tick,
/// and its live threshold becomes the base threshold times the decay factor
/// of its tick count. Where the imbalance has then reached the live
/// threshold, the bar closes: it is handed out as it stands, the live
/// threshold that it crossed joins the history, both estimates are blended
/// with its figures, and their product held to the clamp window of the
/// history becomes the base threshold and the live threshold of the next
/// bar. Where the bar stays open, the base threshold, both estimates and
/// the history stay as they were.
pub open spec fn active_step(
    bar: Bar,
    history: Seq<i128>,
    mkt: MarketData,
    incr: i128,
    cvd_incr: i128,
) -> BarStep {
    let t = bar.ticked(mkt, incr, cvd_incr).decayed();
    if t.crossed() {
        let h = pushed(history, t.imb_thres);
        let e = t.with_new_estimates();
        let candidate = nominal_threshold(e.ewma_imb_current, e.ewma_t_current);
        BarStep {
            bar: Bar {
                imb_thres: clamp_threshold(candidate, h),
                imb_thres_base: clamp_threshold(candidate, h),
                candle_opened: false,
                ..e
            },
            history: h,
            completed: Some(t),
        }
    } else {
        BarStep { bar: t, history, completed: None }
    }
}

/// `x / 2`, rounded toward zero.
pub fn half_of(x: i128) -> (r: i128)
    ensures
        r == half(x),
{
    div_count(x, 2)
}

/// `x + x / 2`, clipped.
pub fn one_and_half_of(x: i128) -> (r: i128)
    ensures
        r == one_and_half(x),
{
    sat_add(x, half_of(x))
}

/// The largest and the smallest threshold of a history; zero twice for an
/// empty one.
pub fn history_range(history: &VecDeque<i128>) -> (r: (i128, i128))
    ensures
        r.0 == max_of(history@),
        r.1 == min_of(history@),
{
    let n = history.len();
    if n == 0 {
        return (0, 0);
    }
    let mut hi: i128 = history[0];
    let mut lo: i128 = history[0];
    let mut i: usize = 1;
    assert(history@.take(1) =~= seq![history@[0]]);
    while i < n
        invariant
            1 <= i <= n,
            n == history@.len(),
            hi == max_of(history@.take(i as int)),
            lo == min_of(history@.take(i as int)),
        decreases n - i,
    {
        proof {
            assert(history@.take(i + 1).drop_last() =~= history@.take(i as int));
            assert(history@.take(i + 1).last() == history@[i as int]);
        }
        let x = history[i];
        if x > hi {
            hi = x;
        }
        if x < lo {
            lo = x;
        }
        i = i + 1;
    }
    assert(history@.take(n as int) =~= history@);
    (hi, lo)
}

/// Adds a threshold to the history, letting the oldest go where the
/// history is full. A history within its bounds stays within them.
pub fn push_threshold(history: &mut VecDeque<i128>, x: i128)
    ensures
        final(history)@ == pushed(old(history)@, x),
        final(history)@.len() > 0,
        old(history)@.len() <= THRESHOLD_COUNT ==> final(history)@.len() <= THRESHOLD_COUNT,
        all_nonneg(old(history)@) && x >= 0 ==> all_nonneg(final(history)@),
{
    if history.len() >= THRESHOLD_COUNT {
        let _ = history.pop_front();
    }
    history.push_back(x);
}

/// Holds a candidate threshold to the clamp window of the history; with no
/// history the candidate stands. Where the history is not empty and holds
/// no negative threshold, the result lies within the window.
pub fn clamp_to_history(candidate: i128, history: &VecDeque<i128>) -> (r: i128)
    ensures
        r == clamp_threshold(candidate, history@),
        history@.len() > 0 && all_nonneg(history@) ==> 0 <= clamp_floor(history@) <= r
            <= clamp_ceiling(history@),
{
    if history.len() == 0 {
        return candidate;
    }
    let (hi, lo) = history_range(history);
    let ceiling = one_and_half_of(hi);
    let floor = half_of(lo);
    proof {
        if all_nonneg(history@) {
            lemma_clamp_window(history@);
        }
    }
    let capped = if candidate < ceiling {
        candidate
    } else {
        ceiling
    };
    if capped > floor {
        capped
    } else {
        floor
    }
}

/// The clamp window of a history without negative values is not empty and
/// starts at or above zero.
pub proof fn lemma_clamp_window(h: Seq<i128>)
    requires
        h.len() > 0,
        all_nonneg(h),
    ensures
        0 <= clamp_floor(h) <= clamp_ceiling(h),
{
    lemma_max_min_of(h);
    let hi = max_of(h);
    let lo = min_of(h);
    let i_max = choose|i: int| 0 <= i < h.len() && h[i] == hi;
    let i_min = choose|i: int| 0 <= i < h.len() && h[i] == lo;
    assert(h[i_max] >= 0 && h[i_min] >= 0);
    assert(lo <= h[i_max]);
    lemma_div_pos_is_pos(lo as int, 2);
    lemma_div_pos_is_pos(hi as int, 2);
    lemma_div_is_ordered_by_denominator(lo as int, 1, 2);
    lemma_div_is_ordered_by_denominator(hi as int, 1, 2);
}

/// Blends one sample into a running estimate. With a weight of at most one
/// an estimate of values that are not negative is not negative.
pub fn blend(lambda: u64, sample: i128, prev: i128) -> (r: i128)
    ensures
        r == ewma_next(lambda, sample, prev),
        lambda <= SCALE && sample >= 0 && prev >= 0 ==> r >= 0,
{
    proof {
        if lambda <= SCALE && sample >= 0 && prev >= 0 {
            lemma_mul_fixed_nonneg(sample as int, lambda as int);
            lemma_mul_fixed_nonneg(prev as int, SCALE - lambda);
        }
    }
    sat_add(mul_fixed(sample, lambda as i128), mul_fixed(prev, (SCALE as i128) - (lambda as i128)))
}

/// Blends the figures of the bar that just closed into both estimates and
/// returns the threshold that they call for.
pub fn close_estimates(bar: &mut Bar) -> (threshold: i128)
    ensures
        *final(bar) == old(bar).with_new_estimates(),
        threshold == nominal_threshold(final(bar).ewma_imb_current, final(bar).ewma_t_current),
        old(bar).wf() ==> threshold >= 0 && final(bar).ewma_t_current >= 0,
{
    let mean = if bar.candle.tick_count == 0 {
        0
    } else {
        div_count(bar.imb, bar.candle.tick_count)
    };
    assert(bar.candle.tick_count * SCALE <= i128::MAX) by (nonlinear_arith)
        requires
            0 <= bar.candle.tick_count <= u64::MAX,
            SCALE == 100_000_000,
    ;
    let ticks: i128 = (bar.candle.tick_count as i128) * (SCALE as i128);
    bar.ewma_imb_current = blend(bar.ewma_factor, mean, bar.ewma_imb_current);
    bar.ewma_t_current = blend(bar.ewma_factor, ticks, bar.ewma_t_current);
    proof {
        if old(bar).wf() {
            lemma_mul_fixed_nonneg(
                clip(magnitude(bar.ewma_imb_current as int) as int) as int,
                bar.ewma_t_current as int,
            );
        }
    }
    mul_fixed(sat_abs(bar.ewma_imb_current), bar.ewma_t_current)
}

/// Advances an engine by one tick before its genesis bar has closed.
pub fn genesis_tick(
    bar: &mut Bar,
    history: &mut VecDeque<i128>,
    mkt: &MarketData,
    incr: i128,
    cvd_incr: i128,
) -> (completed: Option<Bar>)
    ensures
        *final(bar) == genesis_step(*old(bar), old(history)@, *mkt, incr, cvd_incr).bar,
        final(history)@ == genesis_step(*old(bar), old(history)@, *mkt, incr, cvd_incr).history,
        completed == genesis_step(*old(bar), old(history)@, *mkt, incr, cvd_incr).completed,
        completed matches Some(b) ==> {
            &&& b.genesis_due()
            &&& !final(bar).candle_opened
            &&& final(bar).imb_thres == mul_fixed_spec(
                clip(magnitude(b.mean_imbalance() as int) as int) as int,
                final(bar).ewma_t_current as int,
            )
            &&& final(bar).imb_thres_base == final(bar).imb_thres
            &&& final(history)@ == pushed(old(history)@, final(bar).imb_thres)
        },
        completed is None ==> final(bar).candle_opened,
        engine_wf(*old(bar), old(history)@) ==> {
            &&& engine_wf(*final(bar), final(history)@)
            &&& completed matches Some(b) ==> b.closed_bar_holds()
        },
{
    bar.tick(mkt, incr, cvd_incr);
    let collected = match (bar.candle.ts, bar.candle.te) {
        (Some(ts), Some(te)) => te >= ts && te - ts >= bar.genesis_collect_period,
        _ => false,
    };
    if collected && bar.imb != 0 {
        let snapshot = *bar;
        let mean = div_count(bar.imb, bar.candle.tick_count);
        let _ = close_estimates(bar);
        proof {
            if old(bar).wf() {
                lemma_mul_fixed_nonneg(
                    clip(magnitude(mean as int) as int) as int,
                    bar.ewma_t_current as int,
                );
            }
        }
        let threshold = mul_fixed(sat_abs(mean), bar.ewma_t_current);
        bar.imb_thres = threshold;
        bar.imb_thres_base = threshold;
        bar.candle_opened = false;
        push_threshold(history, threshold);
        Some(snapshot)
    } else {
        None
    }
}

/// Advances an engine by one tick after its genesis bar.
pub fn active_tick(
    bar: &mut Bar,
    history: &mut VecDeque<i128>,
    mkt: &MarketData,
    incr: i128,
    cvd_incr: i128,
) -> (completed: Option<Bar>)
    ensures
        *final(bar) == active_step(*old(bar), old(history)@, *mkt, incr, cvd_incr).bar,
        final(history)@ == active_step(*old(bar), old(history)@, *mkt, incr, cvd_incr).history,
        completed == active_step(*old(bar), old(history)@, *mkt, incr, cvd_incr).completed,
        completed matches Some(b) ==> {
            &&& magnitude(b.imb as int) >= b.imb_thres
            &&& b.imb_thres == mul_fixed_spec(
                old(bar).imb_thres_base as int,
                decay_factor_spec(b.candle.tick_count),
            )
            &&& !final(bar).candle_opened
            &&& final(history)@ == pushed(old(history)@, b.imb_thres)
            &&& final(bar).imb_thres_base == final(bar).imb_thres
        },
        completed is None ==> {
            &&& final(bar).candle_opened
            &&& final(bar).candle.tick_count >= 1
            &&& magnitude(final(bar).imb as int) < final(bar).imb_thres
            &&& final(bar).imb_thres == mul_fixed_spec(
                old(bar).imb_thres_base as int,
                decay_factor_spec(final(bar).candle.tick_count),
            )
            &&& final(bar).imb_thres_base == old(bar).imb_thres_base
            &&& final(bar).ewma_imb_current == old(bar).ewma_imb_current
            &&& final(bar).ewma_t_current == old(bar).ewma_t_current
            &&& final(history)@ == old(history)@
        },
        engine_wf(*old(bar), old(history)@) ==> {
            &&& engine_wf(*final(bar), final(history)@)
            &&& completed matches Some(b) ==> {
                &&& b.closed_bar_holds()
                &&& clamp_floor(final(history)@) <= final(bar).imb_thres <= clamp_ceiling(
                    final(history)@,
                )
            }
            &&& completed is None ==> final(bar).imb_thres <= final(bar).imb_thres_base
        },
{
    bar.tick(mkt, incr, cvd_incr);
    let factor = decay_factor(bar.candle.tick_count);
    proof {
        if old(bar).wf() {
            lemma_mul_fixed_fraction(bar.imb_thres_base as int, factor as int);
        }
    }
    bar.imb_thres = mul_fixed(bar.imb_thres_base, factor as i128);
    if bar.imb_thres <= 0 || magnitude_of(bar.imb) >= bar.imb_thres as u128 {
        let snapshot = *bar;
        push_threshold(history, bar.imb_thres);
        let candidate = close_estimates(bar);
        let clamped = clamp_to_history(candidate, history);
        bar.imb_thres = clamped;
        bar.imb_thres_base = clamped;
        bar.candle_opened = false;
        Some(snapshot)
    } else {
        None
    }
}

/// What the three kinds of bar differ in: what one tick adds to the
/// imbalance.
pub trait BarImpl {
    /// What the tick `mkt` adds to the imbalance, its price change measured
    /// against `prev_price`.
    spec fn imbalance_of(mkt: MarketData, prev_price: u64) -> i128;

    /// What the tick `mkt_data` adds to the imbalance.
    fn calculate_imbalance(&self, mkt_data: &MarketData, prev_price: u64) -> (r: i128)
        ensures
            r == Self::imbalance_of(*mkt_data, prev_price),
    ;

    /// Whether the tick `mkt` counts toward the imbalance.
    spec fn counts(&self, mkt: MarketData) -> bool;

    /// Whether the tick counts toward the imbalance.
    fn should_update(&self, mkt_data: &MarketData) -> (r: bool)
        ensures
            r == self.counts(*mkt_data),
    ;

    /// How many past thresholds the clamp looks at.
    fn threshold_count(&self) -> (r: usize)
        ensures
            r == THRESHOLD_COUNT,
    ;
}

/// The sign of a price change as a number: 1, -1 or 0.
pub fn sign_of_change(price: u64, prev_price: u64) -> (r: i128)
    ensures
        r == price_sign(price, prev_price),
{
    if price > prev_price {
        1
    } else if price < prev_price {
        -1
    } else {
        0
    }
}

/// The traded value of a tick, price times size, in units of 10^-8 rounded
/// down.
pub open spec fn traded_value(mkt: MarketData) -> int {
    (mkt.price * mkt.quantity) / (SCALE as int)
}

/// The traded value of a tick.
pub fn traded_value_of(mkt: &MarketData) -> (r: i128)
    ensures
        r == traded_value(*mkt),
        r >= 0,
{
    assert(0 <= mkt.price * mkt.quantity <= u128::MAX) by (nonlinear_arith)
        requires
            0 <= mkt.price <= u64::MAX,
            0 <= mkt.quantity <= u64::MAX,
    ;
    let wide: u128 = (mkt.price as u128) * (mkt.quantity as u128);
    proof {
        lemma_div_is_ordered(wide as int, u128::MAX as int, SCALE as int);
        lemma_div_pos_is_pos(wide as int, SCALE as int);
    }
    (wide / (SCALE as u128)) as i128
}

} // verus!
