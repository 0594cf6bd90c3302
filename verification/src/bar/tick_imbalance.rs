//! Tick imbalance bars: each tick adds the sign of its price change.

use vstd::prelude::*;
use std::collections::VecDeque;
use crate::bar::{
    active_step,
    active_tick,
    clamp_ceiling,
    clamp_floor,
    engine_wf,
    genesis_step,
    genesis_tick,
    previous_close,
    pushed,
    price_sign,
    sign_of_change,
    Bar,
    BarImpl,
    THRESHOLD_COUNT,
};
use crate::data::market::MarketData;
use crate::arith::{clip, mul_fixed_spec};
use crate::decay::decay_factor_spec;
use crate::fixed::{magnitude, SCALE};

verus! {

/// A tick imbalance bar engine: the live bar and the thresholds that recent
/// bars closed on, oldest first.
pub struct TickImbalanceBar {
    pub bar: Bar,
    pub historical_threshold: VecDeque<i128>,
}

impl BarImpl for TickImbalanceBar {
    /// One, minus one or zero, as a fixed-point value.
    open spec fn imbalance_of(mkt: MarketData, prev_price: u64) -> i128 {
        (price_sign(mkt.price, prev_price) * SCALE) as i128
    }

    fn calculate_imbalance(&self, mkt_data: &MarketData, prev_price: u64) -> (r: i128) {
        sign_of_change(mkt_data.price, prev_price) * (SCALE as i128)
    }

    /// Every tick counts.
    open spec fn counts(&self, mkt: MarketData) -> bool {
        true
    }

    fn should_update(&self, mkt_data: &MarketData) -> (r: bool) {
        true
    }

    fn threshold_count(&self) -> (r: usize) {
        THRESHOLD_COUNT
    }
}

impl TickImbalanceBar {
    /// The live bar and the history are sound.
    pub open spec fn wf(&self) -> bool {
        engine_wf(self.bar, self.historical_threshold@)
    }

    /// What the tick `mkt` adds to this engine's imbalance.
    pub open spec fn increment(&self, mkt: MarketData) -> i128 {
        Self::imbalance_of(mkt, previous_close(self.bar, mkt))
    }

    /// An engine that has seen nothing.
    pub fn new() -> (r: Self)
        ensures
            r.wf(),
            r.bar == Bar::with_id_spec(r.bar.id),
            r.historical_threshold@ == Seq::<i128>::empty(),
    {
        TickImbalanceBar { bar: Bar::new(), historical_threshold: VecDeque::new() }
    }

    /// Takes one tick while the engine collects its first bar, and hands
    /// that bar out on the tick that closes it. The threshold is then seeded
    /// with the magnitude of that bar's imbalance per tick times the blended
    /// tick estimate, and the history holds it.
    pub fn genesis_bar(&mut self, mkt_data: &MarketData) -> (completed: Option<Bar>)
        ensures
            old(self).wf() ==> final(self).wf(),
            final(self).bar == genesis_step(
                old(self).bar,
                old(self).historical_threshold@,
                *mkt_data,
                old(self).increment(*mkt_data),
                0,
            ).bar,
            final(self).historical_threshold@ == genesis_step(
                old(self).bar,
                old(self).historical_threshold@,
                *mkt_data,
                old(self).increment(*mkt_data),
                0,
            ).history,
            completed == genesis_step(
                old(self).bar,
                old(self).historical_threshold@,
                *mkt_data,
                old(self).increment(*mkt_data),
                0,
            ).completed,
            completed matches Some(b) ==> {
                &&& b.genesis_due()
                &&& final(self).bar.imb_thres == mul_fixed_spec(
                    clip(magnitude(b.mean_imbalance() as int) as int) as int,
                    final(self).bar.ewma_t_current as int,
                )
                &&& final(self).bar.imb_thres_base == final(self).bar.imb_thres
                &&& final(self).historical_threshold@ == pushed(
                    old(self).historical_threshold@,
                    final(self).bar.imb_thres,
                )
            },
            old(self).wf() ==> (completed matches Some(b) ==> b.closed_bar_holds()),
    {
        let prev_price = match self.bar.candle.pc {
            Some(pc) => pc,
            None => mkt_data.price,
        };
        let incr = self.calculate_imbalance(mkt_data, prev_price);
        genesis_tick(&mut self.bar, &mut self.historical_threshold, mkt_data, incr, 0)
    }

    /// Takes one tick after the first bar, and hands a bar out on the tick
    /// on which its imbalance reaches the live threshold: the threshold
    /// that the last closure set, times the decay factor of the bar's tick
    /// count. The bar handed out has an imbalance at least as large as the
    /// threshold it carries, and the threshold set for the next bar lies
    /// within the clamp window of the history.
    pub fn bar(&mut self, mkt_data: &MarketData) -> (completed: Option<Bar>)
        ensures
            old(self).wf() ==> final(self).wf(),
            final(self).bar == active_step(
                old(self).bar,
                old(self).historical_threshold@,
                *mkt_data,
                old(self).increment(*mkt_data),
                0,
            ).bar,
            final(self).historical_threshold@ == active_step(
                old(self).bar,
                old(self).historical_threshold@,
                *mkt_data,
                old(self).increment(*mkt_data),
                0,
            ).history,
            completed == active_step(
                old(self).bar,
                old(self).historical_threshold@,
                *mkt_data,
                old(self).increment(*mkt_data),
                0,
            ).completed,
            completed matches Some(b) ==> {
                &&& magnitude(b.imb as int) >= b.imb_thres
                &&& b.imb_thres == mul_fixed_spec(
                    old(self).bar.imb_thres_base as int,
                    decay_factor_spec(b.candle.tick_count),
                )
            },
            completed is None ==> {
                &&& final(self).bar.candle_opened
                &&& final(self).bar.candle.tick_count >= 1
                &&& magnitude(final(self).bar.imb as int) < final(self).bar.imb_thres
                &&& final(self).bar.imb_thres == mul_fixed_spec(
                    old(self).bar.imb_thres_base as int,
                    decay_factor_spec(final(self).bar.candle.tick_count),
                )
                &&& final(self).bar.imb_thres_base == old(self).bar.imb_thres_base
                &&& final(self).bar.ewma_imb_current == old(self).bar.ewma_imb_current
                &&& final(self).bar.ewma_t_current == old(self).bar.ewma_t_current
                &&& final(self).historical_threshold@ == old(self).historical_threshold@
            },
            old(self).wf() ==> (completed matches Some(b) ==> {
                &&& b.closed_bar_holds()
                &&& clamp_floor(final(self).historical_threshold@) <= final(self).bar.imb_thres
                    <= clamp_ceiling(final(self).historical_threshold@)
            }),
    {
        let prev_price = match self.bar.candle.pc {
            Some(pc) => pc,
            None => mkt_data.price,
        };
        let incr = self.calculate_imbalance(mkt_data, prev_price);
        active_tick(&mut self.bar, &mut self.historical_threshold, mkt_data, incr, 0)
    }

    /// Clears the live bar for the next one and gives it a fresh identity;
    /// the close, the threshold state and the history stay.
    pub fn reset(&mut self)
        ensures
            old(self).wf() ==> final(self).wf(),
            final(self).bar == old(self).bar.cleared(final(self).bar.id),
            final(self).historical_threshold@ == old(self).historical_threshold@,
    {
        self.bar.reset();
    }
}

} // verus!
