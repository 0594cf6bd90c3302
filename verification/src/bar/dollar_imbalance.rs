//! Dollar imbalance bars: each tick adds its traded value, signed by its
//! price change.

use vstd::prelude::*;
use std::collections::VecDeque;
use crate::bar::{
    active_step,
    active_tick,
    clamp_ceiling,
    clamp_floor,
    engine_wf,
    genesis_step,
    genesis_tick,
    previous_close,
    pushed,
    price_sign,
    sign_of_change,
    traded_value,
    traded_value_of,
    Bar,
    BarImpl,
    THRESHOLD_COUNT,
};
use crate::data::market::MarketData;
use crate::arith::{clip, mul_fixed_spec};
use crate::decay::decay_factor_spec;
use crate::fixed::magnitude;

verus! {

/// A dollar imbalance bar engine: the live bar, the thresholds that recent
/// bars closed on, oldest first, and which trades count toward the
/// imbalance. The bar's summed flow takes every trade.
pub struct DollarImbalanceBar {
    pub bar: Bar,
    pub historical_threshold: VecDeque<i128>,
    pub volume_type: DollarVolumeType,
}

/// Which trades count toward the imbalance of a dollar bar: those in which
/// the buyer was the maker, those in which the buyer was the taker, or
/// both.
#[derive(Clone, Copy, Debug, PartialEq, Eq, Structural)]
pub enum DollarVolumeType {
    Maker,
    Taker,
    Both,
}

impl BarImpl for DollarImbalanceBar {
    /// The traded value of the tick, signed by its price change.
    open spec fn imbalance_of(mkt: MarketData, prev_price: u64) -> i128 {
        (price_sign(mkt.price, prev_price) * traded_value(mkt)) as i128
    }

    fn calculate_imbalance(&self, mkt_data: &MarketData, prev_price: u64) -> (r: i128) {
        sign_of_change(mkt_data.price, prev_price) * traded_value_of(mkt_data)
    }

    /// A tick counts where its maker side is the one this bar follows.
    open spec fn counts(&self, mkt: MarketData) -> bool {
        match self.volume_type {
            DollarVolumeType::Maker => mkt.buyer_market_maker,
            DollarVolumeType::Taker => !mkt.buyer_market_maker,
            DollarVolumeType::Both => true,
        }
    }

    fn should_update(&self, mkt_data: &MarketData) -> (r: bool) {
        match self.volume_type {
            DollarVolumeType::Maker => mkt_data.buyer_market_maker,
            DollarVolumeType::Taker => !mkt_data.buyer_market_maker,
            DollarVolumeType::Both => true,
        }
    }

    fn threshold_count(&self) -> (r: usize) {
        THRESHOLD_COUNT
    }
}

impl DollarImbalanceBar {
    /// The live bar and the history are sound.
    pub open spec fn wf(&self) -> bool {
        engine_wf(self.bar, self.historical_threshold@)
    }

    /// What the tick `mkt` adds to this engine's summed flow: its traded value,
    /// signed by its price change, whichever side made the trade.
    pub open spec fn flow(&self, mkt: MarketData) -> i128 {
        Self::imbalance_of(mkt, previous_close(self.bar, mkt))
    }

    /// What the tick `mkt` adds to this engine's imbalance: its flow where
    /// it counts, nothing where it does not.
    pub open spec fn increment(&self, mkt: MarketData) -> i128 {
        if self.counts(mkt) {
            self.flow(mkt)
        } else {
            0
        }
    }

    /// An engine that has seen nothing and counts every trade.
    pub fn new() -> (r: Self)
        ensures
            r.wf(),
            r.bar == Bar::with_id_spec(r.bar.id),
            r.historical_threshold@ == Seq::<i128>::empty(),
            r.volume_type == DollarVolumeType::Both,
    {
        Self::with_type(DollarVolumeType::Both)
    }

    /// An engine that has seen nothing and counts the trades of
    /// `volume_type`.
    pub fn with_type(volume_type: DollarVolumeType) -> (r: Self)
        ensures
            r.wf(),
            r.bar == Bar::with_id_spec(r.bar.id),
            r.historical_threshold@ == Seq::<i128>::empty(),
            r.volume_type == volume_type,
    {
        DollarImbalanceBar { bar: Bar::new(), historical_threshold: VecDeque::new(), volume_type }
    }

    /// Takes one tick while the engine collects its first bar, and hands
    /// that bar out on the tick that closes it. The threshold is then seeded
    /// with the magnitude of that bar's imbalance per tick times the blended
    /// tick estimate, and the history holds it.
    pub fn genesis_bar(&mut self, mkt_data: &MarketData) -> (completed: Option<Bar>)
        ensures
            old(self).wf() ==> final(self).wf(),
            final(self).volume_type == old(self).volume_type,
            final(self).bar == genesis_step(
                old(self).bar,
                old(self).historical_threshold@,
                *mkt_data,
                old(self).increment(*mkt_data),
                old(self).flow(*mkt_data),
            ).bar,
            final(self).historical_threshold@ == genesis_step(
                old(self).bar,
                old(self).historical_threshold@,
                *mkt_data,
                old(self).increment(*mkt_data),
                old(self).flow(*mkt_data),
            ).history,
            completed == genesis_step(
                old(self).bar,
                old(self).historical_threshold@,
                *mkt_data,
                old(self).increment(*mkt_data),
                old(self).flow(*mkt_data),
            ).completed,
            completed matches Some(b) ==> {
                &&& b.genesis_due()
                &&& final(self).bar.imb_thres == mul_fixed_spec(
                    clip(magnitude(b.mean_imbalance() as int) as int) as int,
                    final(self).bar.ewma_t_current as int,
                )
                &&& final(self).bar.imb_thres_base == final(self).bar.imb_thres
                &&& final(self).historical_threshold@ == pushed(
                    old(self).historical_threshold@,
                    final(self).bar.imb_thres,
                )
            },
            old(self).wf() ==> (completed matches Some(b) ==> b.closed_bar_holds()),
    {
        let prev_price = match self.bar.candle.pc {
            Some(pc) => pc,
            None => mkt_data.price,
        };
        let flow = self.calculate_imbalance(mkt_data, prev_price);
        let incr = if self.should_update(mkt_data) {
            flow
        } else {
            0
        };
        genesis_tick(&mut self.bar, &mut self.historical_threshold, mkt_data, incr, flow)
    }

    /// Takes one tick after the first bar, and hands a bar out on the tick
    /// on which its imbalance reaches the live threshold: the threshold
    /// that the last closure set, times the decay factor of the bar's tick
    /// count. The bar handed out has an imbalance at least as large as the
    /// threshold it carries, and the threshold set for the next bar lies
    /// within the clamp window of the history.
    pub fn bar(&mut self, mkt_data: &MarketData) -> (completed: Option<Bar>)
        ensures
            old(self).wf() ==> final(self).wf(),
            final(self).volume_type == old(self).volume_type,
            final(self).bar == active_step(
                old(self).bar,
                old(self).historical_threshold@,
                *mkt_data,
                old(self).increment(*mkt_data),
                old(self).flow(*mkt_data),
            ).bar,
            final(self).historical_threshold@ == active_step(
                old(self).bar,
                old(self).historical_threshold@,
                *mkt_data,
                old(self).increment(*mkt_data),
                old(self).flow(*mkt_data),
            ).history,
            completed == active_step(
                old(self).bar,
                old(self).historical_threshold@,
                *mkt_data,
                old(self).increment(*mkt_data),
                old(self).flow(*mkt_data),
            ).completed,
            completed matches Some(b) ==> {
                &&& magnitude(b.imb as int) >= b.imb_thres
                &&& b.imb_thres == mul_fixed_spec(
                    old(self).bar.imb_thres_base as int,
                    decay_factor_spec(b.candle.tick_count),
                )
            },
            completed is None ==> {
                &&& final(self).bar.candle_opened
                &&& final(self).bar.candle.tick_count >= 1
                &&& magnitude(final(self).bar.imb as int) < final(self).bar.imb_thres
                &&& final(self).bar.imb_thres == mul_fixed_spec(
                    old(self).bar.imb_thres_base as int,
                    decay_factor_spec(final(self).bar.candle.tick_count),
                )
                &&& final(self).bar.imb_thres_base == old(self).bar.imb_thres_base
                &&& final(self).bar.ewma_imb_current == old(self).bar.ewma_imb_current
                &&& final(self).bar.ewma_t_current == old(self).bar.ewma_t_current
                &&& final(self).historical_threshold@ == old(self).historical_threshold@
            },
            old(self).wf() ==> (completed matches Some(b) ==> {
                &&& b.closed_bar_holds()
                &&& clamp_floor(final(self).historical_threshold@) <= final(self).bar.imb_thres
                    <= clamp_ceiling(final(self).historical_threshold@)
            }),
    {
        let prev_price = match self.bar.candle.pc {
            Some(pc) => pc,
            None => mkt_data.price,
        };
        let flow = self.calculate_imbalance(mkt_data, prev_price);
        let incr = if self.should_update(mkt_data) {
            flow
        } else {
            0
        };
        active_tick(&mut self.bar, &mut self.historical_threshold, mkt_data, incr, flow)
    }

    /// Clears the live bar for the next one and gives it a fresh identity;
    /// the close, the threshold state and the history stay.
    pub fn reset(&mut self)
        ensures
            old(self).wf() ==> final(self).wf(),
            final(self).bar == old(self).bar.cleared(final(self).bar.id),
            final(self).historical_threshold@ == old(self).historical_threshold@,
            final(self).volume_type == old(self).volume_type,
    {
        self.bar.reset();
    }
}

} // verus!
