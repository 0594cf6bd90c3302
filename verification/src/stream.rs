//! The per-source stream merger: one state for one market, advanced by one
//! event at a time. Each handler takes an event and the time at which it is
//! processed, updates the state, and returns the feature record to publish.
//! Waiting for events, reading the clock and sending records are the
//! caller's part.

use vstd::prelude::*;
use crate::bar::dollar_imbalance::{DollarImbalanceBar, DollarVolumeType};
use crate::bar::tick_imbalance::TickImbalanceBar;
use crate::bar::volume_imbalance::{VolumeImbalanceBar, VolumeType};
use crate::bar::vwap::capped_sum;
use crate::bar::{active_step, genesis_step, Bar, BarStep};
use crate::book::{
    band_sum,
    band_volume,
    best_level_imbalance,
    capped_volume,
    flow_imbalance,
    flow_imbalance_spec,
    imbalance_ratio,
    imbalance_ratio_of,
    near_above,
    near_asks,
    near_below,
    near_bids,
    price_or_zero,
    size_or_zero,
};
use crate::data::depth::{DepthSnapshot, OrderbookUpdateStream};
use crate::data::liquidation::{LiquidationData, LiquidationSide};
use crate::data::market::MarketData;
use crate::data::markprice::MarkPriceData;
use crate::fixed::SCALE;
use crate::ladder::{apply_levels, Level};
use crate::orderbook::{apply_post, continuing, ApplyResult, Orderbook};
use crate::source::{AssetSource, EventType};

verus! {

/// The narrower band of the ranged book imbalance: 0.5 % around the price.
pub const OBI_MARGIN_NARROW: u64 = 500_000;

/// The wider band of the ranged book imbalance: 1 % around the price.
pub const OBI_MARGIN_WIDE: u64 = 1_000_000;

/// How near a level of the derivatives book must be to count as near the
/// price: 0.1 %.
pub const NEAR_MARGIN_FUTURE: u64 = 100_000;

/// How near a level of the spot book must be to count as near the price:
/// 0.2 %.
pub const NEAR_MARGIN_SPOT: u64 = 200_000;

/// The record published for every event: what the event was, its times,
/// the last trade price, the book's scalars, the last closed bar of each
/// kind beside the live figures of the bar in progress, and, for the event
/// that carries them, mark price and liquidation.
#[derive(Clone, Copy, Debug)]
pub struct FeatureProcessed {
    pub event_type: Option<EventType>,
    pub event_time: u64,
    pub processed_time: u64,
    pub trade_time: u64,
    pub liquidation_side: Option<LiquidationSide>,
    pub liquidation_dvolume: u128,
    pub mark_price: u64,
    pub funding_rate: i64,
    pub next_funding_time: u64,
    pub source: Option<AssetSource>,
    /// The last trade price; zero until a trade was seen.
    pub price: u64,
    pub maker_quantity: u128,
    pub taker_quantity: u128,
    /// The best levels as of the last depth event published.
    pub best_bid: Option<Level>,
    pub best_ask: Option<Level>,
    pub ob_spread: i128,
    pub obi: i64,
    pub obi_range: (i64, i64),
    pub ofi: i128,
    pub tick_imbalance_bar: Bar,
    pub volume_imbalance_bar: Bar,
    pub dollar_imbalance_bar: Bar,
    pub tick_imbalance: i128,
    pub tick_imbalance_thres: i128,
    pub tick_imbalance_vwap: u128,
    pub volume_imbalance: i128,
    pub volume_imbalance_thres: i128,
    pub volume_imbalance_vwap: u128,
    pub volume_imbalance_cvd: i128,
    pub dollar_imbalance: i128,
    pub dollar_imbalance_thres: i128,
    pub dollar_imbalance_vwap: u128,
    pub dollar_imbalance_cvd: i128,
    pub tick_imbalance_bar_init: bool,
    pub volume_imbalance_bar_init: bool,
    pub dollar_imbalance_bar_init: bool,
}

/// The three bar engines in progress, and whether each has closed its
/// genesis bar.
pub struct FeatureInProgress {
    pub trade_time: u64,
    pub event_time: u64,
    pub processing_time: u64,
    pub tick_imbalance_bar: TickImbalanceBar,
    pub volume_imbalance_bar: VolumeImbalanceBar,
    pub dollar_imbalance_bar: DollarImbalanceBar,
    pub tick_imbalance_bar_init: bool,
    pub volume_imbalance_bar_init: bool,
    pub dollar_imbalance_bar_init: bool,
}

/// The state of one market's merger: the bars in progress, the record
/// under construction and the market's book.
pub struct StreamBase {
    pub in_progress: FeatureInProgress,
    pub processed: FeatureProcessed,
    pub orderbook: Orderbook,
    /// Set from the moment a snapshot is installed until an update has been
    /// applied on top of it.
    pub fresh_snapshot: bool,
}

/// What a depth event led to: what the book made of it, the record to
/// publish if one is due, and the levels near the last trade price for the
/// strategies that want them.
pub struct DepthOutcome {
    pub result: ApplyResult,
    pub published: Option<FeatureProcessed>,
    pub near_price_bids: Vec<Level>,
    pub near_price_asks: Vec<Level>,
}

/// The record before any event, with `tick`, `volume` and `dollar` as the
/// three bars it shows.
pub open spec fn blank_record(tick: Bar, volume: Bar, dollar: Bar) -> FeatureProcessed {
    FeatureProcessed {
        event_type: None,
        event_time: 0,
        processed_time: 0,
        trade_time: 0,
        liquidation_side: None,
        liquidation_dvolume: 0,
        mark_price: 0,
        funding_rate: 0,
        next_funding_time: 0,
        source: None,
        price: 0,
        maker_quantity: 0,
        taker_quantity: 0,
        best_bid: None,
        best_ask: None,
        ob_spread: 0,
        obi: 0,
        obi_range: (0, 0),
        ofi: 0,
        tick_imbalance_bar: tick,
        volume_imbalance_bar: volume,
        dollar_imbalance_bar: dollar,
        tick_imbalance: 0,
        tick_imbalance_thres: 0,
        tick_imbalance_vwap: 0,
        volume_imbalance: 0,
        volume_imbalance_thres: 0,
        volume_imbalance_vwap: 0,
        volume_imbalance_cvd: 0,
        dollar_imbalance: 0,
        dollar_imbalance_thres: 0,
        dollar_imbalance_vwap: 0,
        dollar_imbalance_cvd: 0,
        tick_imbalance_bar_init: false,
        volume_imbalance_bar_init: false,
        dollar_imbalance_bar_init: false,
    }
}

/// The step that an engine takes on a tick: the genesis step until its
/// first bar has closed, the active step after.
pub open spec fn engine_step(
    bar: Bar,
    history: Seq<i128>,
    init: bool,
    mkt: MarketData,
    incr: i128,
    cvd_incr: i128,
) -> BarStep {
    if init {
        active_step(bar, history, mkt, incr, cvd_incr)
    } else {
        genesis_step(bar, history, mkt, incr, cvd_incr)
    }
}

/// How the merger follows an engine's step. Where a bar closed, it becomes
/// the latest closed bar, the genesis flag is set and the live bar is
/// cleared under a new identity; where none closed, the latest closed bar
/// and the flag stay and the live bar is the stepped one.
pub open spec fn advanced(
    step: BarStep,
    init: bool,
    latest: Bar,
    bar2: Bar,
    history2: Seq<i128>,
    init2: bool,
    latest2: Bar,
) -> bool {
    &&& history2 == step.history
    &&& match step.completed {
        Some(b) => latest2 == b && init2 && bar2 == step.bar.cleared(bar2.id),
        None => latest2 == latest && init2 == init && bar2 == step.bar,
    }
}

/// The times of a record are in order: trade, then event, then processing.
pub open spec fn times_in_order(r: FeatureProcessed) -> bool {
    r.trade_time <= r.event_time <= r.processed_time
}

/// The traded value of a liquidation: quantity times average price, in
/// units of 10^-8 rounded down.
pub open spec fn liquidation_value(liq: LiquidationData) -> u128 {
    ((liq.quantity * liq.avg_price) / (SCALE as int)) as u128
}

impl FeatureProcessed {
    /// A record before any event, showing three bars that have seen
    /// nothing, each under a fresh identity.
    pub fn new() -> (r: Self)
        ensures
            r == blank_record(r.tick_imbalance_bar, r.volume_imbalance_bar, r.dollar_imbalance_bar),
            r.tick_imbalance_bar == Bar::with_id_spec(r.tick_imbalance_bar.id),
            r.volume_imbalance_bar == Bar::with_id_spec(r.volume_imbalance_bar.id),
            r.dollar_imbalance_bar == Bar::with_id_spec(r.dollar_imbalance_bar.id),
    {
        FeatureProcessed {
            event_type: None,
            event_time: 0,
            processed_time: 0,
            trade_time: 0,
            liquidation_side: None,
            liquidation_dvolume: 0,
            mark_price: 0,
            funding_rate: 0,
            next_funding_time: 0,
            source: None,
            price: 0,
            maker_quantity: 0,
            taker_quantity: 0,
            best_bid: None,
            best_ask: None,
            ob_spread: 0,
            obi: 0,
            obi_range: (0, 0),
            ofi: 0,
            tick_imbalance_bar: Bar::new(),
            volume_imbalance_bar: Bar::new(),
            dollar_imbalance_bar: Bar::new(),
            tick_imbalance: 0,
            tick_imbalance_thres: 0,
            tick_imbalance_vwap: 0,
            volume_imbalance: 0,
            volume_imbalance_thres: 0,
            volume_imbalance_vwap: 0,
            volume_imbalance_cvd: 0,
            dollar_imbalance: 0,
            dollar_imbalance_thres: 0,
            dollar_imbalance_vwap: 0,
            dollar_imbalance_cvd: 0,
            tick_imbalance_bar_init: false,
            volume_imbalance_bar_init: false,
            dollar_imbalance_bar_init: false,
        }
    }
}

impl FeatureInProgress {
    /// The three engines are sound.
    pub open spec fn wf(&self) -> bool {
        &&& self.tick_imbalance_bar.wf()
        &&& self.volume_imbalance_bar.wf()
        &&& self.dollar_imbalance_bar.wf()
    }

    /// Three engines that have seen nothing. The volume engine and the
    /// dollar engine count every trade, whichever side made it.
    pub fn new() -> (r: Self)
        ensures
            r.wf(),
            r.volume_imbalance_bar.volume_type == VolumeType::Both,
            r.dollar_imbalance_bar.volume_type == DollarVolumeType::Both,
            r.trade_time == 0,
            r.event_time == 0,
            r.processing_time == 0,
            !r.tick_imbalance_bar_init,
            !r.volume_imbalance_bar_init,
            !r.dollar_imbalance_bar_init,
            r.tick_imbalance_bar.bar == Bar::with_id_spec(r.tick_imbalance_bar.bar.id),
            r.volume_imbalance_bar.bar == Bar::with_id_spec(r.volume_imbalance_bar.bar.id),
            r.dollar_imbalance_bar.bar == Bar::with_id_spec(r.dollar_imbalance_bar.bar.id),
            r.tick_imbalance_bar.historical_threshold@ == Seq::<i128>::empty(),
            r.volume_imbalance_bar.historical_threshold@ == Seq::<i128>::empty(),
            r.dollar_imbalance_bar.historical_threshold@ == Seq::<i128>::empty(),
    {
        FeatureInProgress {
            trade_time: 0,
            event_time: 0,
            processing_time: 0,
            tick_imbalance_bar: TickImbalanceBar::new(),
            volume_imbalance_bar: VolumeImbalanceBar::new(),
            dollar_imbalance_bar: DollarImbalanceBar::new(),
            tick_imbalance_bar_init: false,
            volume_imbalance_bar_init: false,
            dollar_imbalance_bar_init: false,
        }
    }
}

impl StreamBase {
    /// The engines and the book are sound.
    pub open spec fn wf(&self) -> bool {
        &&& self.in_progress.wf()
        &&& self.orderbook.wf()
    }

    /// How near a level must be to the price to count as near it, in this
    /// merger's market.
    pub open spec fn near_margin(&self) -> u64 {
        match self.processed.source {
            Some(AssetSource::Spot) => NEAR_MARGIN_SPOT,
            _ => NEAR_MARGIN_FUTURE,
        }
    }

    /// The merger of one market before any event: an empty book, three
    /// engines that have seen nothing, and a blank record tagged with the
    /// market.
    pub fn new(source: AssetSource) -> (r: Self)
        ensures
            r.wf(),
            r.processed == (FeatureProcessed {
                source: Some(source),
                ..blank_record(
                    r.processed.tick_imbalance_bar,
                    r.processed.volume_imbalance_bar,
                    r.processed.dollar_imbalance_bar,
                )
            }),
            !r.in_progress.tick_imbalance_bar_init,
            !r.in_progress.volume_imbalance_bar_init,
            !r.in_progress.dollar_imbalance_bar_init,
            r.in_progress.tick_imbalance_bar.bar == Bar::with_id_spec(
                r.in_progress.tick_imbalance_bar.bar.id,
            ),
            r.in_progress.volume_imbalance_bar.bar == Bar::with_id_spec(
                r.in_progress.volume_imbalance_bar.bar.id,
            ),
            r.in_progress.dollar_imbalance_bar.bar == Bar::with_id_spec(
                r.in_progress.dollar_imbalance_bar.bar.id,
            ),
            r.orderbook.bids@ == Map::<u64, u64>::empty(),
            r.orderbook.asks@ == Map::<u64, u64>::empty(),
            r.orderbook.last_update_id == 0,
            !r.fresh_snapshot,
    {
        let mut processed = FeatureProcessed::new();
        processed.source = Some(source);
        StreamBase {
            in_progress: FeatureInProgress::new(),
            processed,
            orderbook: Orderbook::new(),
            fresh_snapshot: false,
        }
    }

    /// Installs a snapshot as the market's book. The update that follows
    /// is then placed by its id range alone.
    pub fn handle_snapshot(&mut self, snapshot: &DepthSnapshot)
        ensures
            final(self).fresh_snapshot,
            final(self).orderbook.wf(),
            final(self).orderbook.bids@ == apply_levels(Map::<u64, u64>::empty(), snapshot.bids@),
            final(self).orderbook.asks@ == apply_levels(Map::<u64, u64>::empty(), snapshot.asks@),
            final(self).orderbook.last_update_id == snapshot.last_update_id,
            final(self).orderbook.trade_time == old(self).orderbook.trade_time,
            final(self).orderbook.event_time == old(self).orderbook.event_time,
            final(self).orderbook.last_source == old(self).orderbook.last_source,
            final(self).in_progress == old(self).in_progress,
            final(self).processed == old(self).processed,
    {
        self.orderbook.reset_from(snapshot);
        self.fresh_snapshot = true;
    }

    /// Advances the tick imbalance engine by one trade. A bar that closes
    /// becomes the record's latest tick bar and the live bar is cleared;
    /// the record's live tick figures are those of the live bar after the
    /// step. Nothing else changes.
    pub fn update_tick_imbalance_bar(&mut self, mkt_data: &MarketData)
        ensures
            old(self).wf() ==> final(self).wf(),
            advanced(
                engine_step(
                    old(self).in_progress.tick_imbalance_bar.bar,
                    old(self).in_progress.tick_imbalance_bar.historical_threshold@,
                    old(self).in_progress.tick_imbalance_bar_init,
                    *mkt_data,
                    old(self).in_progress.tick_imbalance_bar.increment(*mkt_data),
                    0,
                ),
                old(self).in_progress.tick_imbalance_bar_init,
                old(self).processed.tick_imbalance_bar,
                final(self).in_progress.tick_imbalance_bar.bar,
                final(self).in_progress.tick_imbalance_bar.historical_threshold@,
                final(self).in_progress.tick_imbalance_bar_init,
                final(self).processed.tick_imbalance_bar,
            ),
            final(self).processed == (FeatureProcessed {
                tick_imbalance_bar: final(self).processed.tick_imbalance_bar,
                tick_imbalance_bar_init: final(self).in_progress.tick_imbalance_bar_init,
                tick_imbalance: final(self).in_progress.tick_imbalance_bar.bar.imb,
                tick_imbalance_thres: final(self).in_progress.tick_imbalance_bar.bar.imb_thres,
                tick_imbalance_vwap: final(self).in_progress.tick_imbalance_bar.bar.vwap,
                ..old(self).processed
            }),
            final(self).in_progress.volume_imbalance_bar == old(
                self,
            ).in_progress.volume_imbalance_bar,
            final(self).in_progress.dollar_imbalance_bar == old(
                self,
            ).in_progress.dollar_imbalance_bar,
            final(self).in_progress.volume_imbalance_bar_init == old(
                self,
            ).in_progress.volume_imbalance_bar_init,
            final(self).in_progress.dollar_imbalance_bar_init == old(
                self,
            ).in_progress.dollar_imbalance_bar_init,
            final(self).in_progress.trade_time == old(self).in_progress.trade_time,
            final(self).in_progress.event_time == old(self).in_progress.event_time,
            final(self).in_progress.processing_time == old(self).in_progress.processing_time,
            final(self).orderbook == old(self).orderbook,
            final(self).fresh_snapshot == old(self).fresh_snapshot,
    {
        let completed = if self.in_progress.tick_imbalance_bar_init {
            self.in_progress.tick_imbalance_bar.bar(mkt_data)
        } else {
            self.in_progress.tick_imbalance_bar.genesis_bar(mkt_data)
        };
        match completed {
            Some(tb) => {
                self.processed.tick_imbalance_bar = tb;
                self.in_progress.tick_imbalance_bar_init = true;
                self.in_progress.tick_imbalance_bar.reset();
            },
            None => {},
        }
        self.processed.tick_imbalance_bar_init = self.in_progress.tick_imbalance_bar_init;
        self.processed.tick_imbalance = self.in_progress.tick_imbalance_bar.bar.imb;
        self.processed.tick_imbalance_thres = self.in_progress.tick_imbalance_bar.bar.imb_thres;
        self.processed.tick_imbalance_vwap = self.in_progress.tick_imbalance_bar.bar.vwap;
    }

    /// Advances the volume imbalance engine by one trade, as
    /// `update_tick_imbalance_bar` does the tick engine; the record's live
    /// volume figures include the summed flow.
    pub fn update_volume_imbalance_bar(&mut self, mkt_data: &MarketData)
        ensures
            old(self).wf() ==> final(self).wf(),
            advanced(
                engine_step(
                    old(self).in_progress.volume_imbalance_bar.bar,
                    old(self).in_progress.volume_imbalance_bar.historical_threshold@,
                    old(self).in_progress.volume_imbalance_bar_init,
                    *mkt_data,
                    old(self).in_progress.volume_imbalance_bar.increment(*mkt_data),
                    old(self).in_progress.volume_imbalance_bar.flow(*mkt_data),
                ),
                old(self).in_progress.volume_imbalance_bar_init,
                old(self).processed.volume_imbalance_bar,
                final(self).in_progress.volume_imbalance_bar.bar,
                final(self).in_progress.volume_imbalance_bar.historical_threshold@,
                final(self).in_progress.volume_imbalance_bar_init,
                final(self).processed.volume_imbalance_bar,
            ),
            final(self).in_progress.volume_imbalance_bar.volume_type == old(
                self,
            ).in_progress.volume_imbalance_bar.volume_type,
            final(self).processed == (FeatureProcessed {
                volume_imbalance_bar: final(self).processed.volume_imbalance_bar,
                volume_imbalance_bar_init: final(self).in_progress.volume_imbalance_bar_init,
                volume_imbalance: final(self).in_progress.volume_imbalance_bar.bar.imb,
                volume_imbalance_thres: final(self).in_progress.volume_imbalance_bar.bar.imb_thres,
                volume_imbalance_vwap: final(self).in_progress.volume_imbalance_bar.bar.vwap,
                volume_imbalance_cvd: final(self).in_progress.volume_imbalance_bar.bar.cvd,
                ..old(self).processed
            }),
            final(self).in_progress.tick_imbalance_bar == old(self).in_progress.tick_imbalance_bar,
            final(self).in_progress.dollar_imbalance_bar == old(
                self,
            ).in_progress.dollar_imbalance_bar,
            final(self).in_progress.tick_imbalance_bar_init == old(
                self,
            ).in_progress.tick_imbalance_bar_init,
            final(self).in_progress.dollar_imbalance_bar_init == old(
                self,
            ).in_progress.dollar_imbalance_bar_init,
            final(self).in_progress.trade_time == old(self).in_progress.trade_time,
            final(self).in_progress.event_time == old(self).in_progress.event_time,
            final(self).in_progress.processing_time == old(self).in_progress.processing_time,
            final(self).orderbook == old(self).orderbook,
            final(self).fresh_snapshot == old(self).fresh_snapshot,
    {
        let completed = if self.in_progress.volume_imbalance_bar_init {
            self.in_progress.volume_imbalance_bar.bar(mkt_data)
        } else {
            self.in_progress.volume_imbalance_bar.genesis_bar(mkt_data)
        };
        match completed {
            Some(vb) => {
                self.processed.volume_imbalance_bar = vb;
                self.in_progress.volume_imbalance_bar_init = true;
                self.in_progress.volume_imbalance_bar.reset();
            },
            None => {},
        }
        self.processed.volume_imbalance_bar_init = self.in_progress.volume_imbalance_bar_init;
        self.processed.volume_imbalance = self.in_progress.volume_imbalance_bar.bar.imb;
        self.processed.volume_imbalance_thres = self.in_progress.volume_imbalance_bar.bar.imb_thres;
        self.processed.volume_imbalance_vwap = self.in_progress.volume_imbalance_bar.bar.vwap;
        self.processed.volume_imbalance_cvd = self.in_progress.volume_imbalance_bar.bar.cvd;
    }

    /// Advances the dollar imbalance engine by one trade, as
    /// `update_volume_imbalance_bar` does the volume engine.
    pub fn update_dollar_imbalance_bar(&mut self, mkt_data: &MarketData)
        ensures
            old(self).wf() ==> final(self).wf(),
            advanced(
                engine_step(
                    old(self).in_progress.dollar_imbalance_bar.bar,
                    old(self).in_progress.dollar_imbalance_bar.historical_threshold@,
                    old(self).in_progress.dollar_imbalance_bar_init,
                    *mkt_data,
                    old(self).in_progress.dollar_imbalance_bar.increment(*mkt_data),
                    old(self).in_progress.dollar_imbalance_bar.flow(*mkt_data),
                ),
                old(self).in_progress.dollar_imbalance_bar_init,
                old(self).processed.dollar_imbalance_bar,
                final(self).in_progress.dollar_imbalance_bar.bar,
                final(self).in_progress.dollar_imbalance_bar.historical_threshold@,
                final(self).in_progress.dollar_imbalance_bar_init,
                final(self).processed.dollar_imbalance_bar,
            ),
            final(self).in_progress.dollar_imbalance_bar.volume_type == old(
                self,
            ).in_progress.dollar_imbalance_bar.volume_type,
            final(self).processed == (FeatureProcessed {
                dollar_imbalance_bar: final(self).processed.dollar_imbalance_bar,
                dollar_imbalance_bar_init: final(self).in_progress.dollar_imbalance_bar_init,
                dollar_imbalance: final(self).in_progress.dollar_imbalance_bar.bar.imb,
                dollar_imbalance_thres: final(self).in_progress.dollar_imbalance_bar.bar.imb_thres,
                dollar_imbalance_vwap: final(self).in_progress.dollar_imbalance_bar.bar.vwap,
                dollar_imbalance_cvd: final(self).in_progress.dollar_imbalance_bar.bar.cvd,
                ..old(self).processed
            }),
            final(self).in_progress.tick_imbalance_bar == old(self).in_progress.tick_imbalance_bar,
            final(self).in_progress.volume_imbalance_bar == old(
                self,
            ).in_progress.volume_imbalance_bar,
            final(self).in_progress.tick_imbalance_bar_init == old(
                self,
            ).in_progress.tick_imbalance_bar_init,
            final(self).in_progress.volume_imbalance_bar_init == old(
                self,
            ).in_progress.volume_imbalance_bar_init,
            final(self).in_progress.trade_time == old(self).in_progress.trade_time,
            final(self).in_progress.event_time == old(self).in_progress.event_time,
            final(self).in_progress.processing_time == old(self).in_progress.processing_time,
            final(self).orderbook == old(self).orderbook,
            final(self).fresh_snapshot == old(self).fresh_snapshot,
    {
        let completed = if self.in_progress.dollar_imbalance_bar_init {
            self.in_progress.dollar_imbalance_bar.bar(mkt_data)
        } else {
            self.in_progress.dollar_imbalance_bar.genesis_bar(mkt_data)
        };
        match completed {
            Some(db) => {
                self.processed.dollar_imbalance_bar = db;
                self.in_progress.dollar_imbalance_bar_init = true;
                self.in_progress.dollar_imbalance_bar.reset();
            },
            None => {},
        }
        self.processed.dollar_imbalance_bar_init = self.in_progress.dollar_imbalance_bar_init;
        self.processed.dollar_imbalance = self.in_progress.dollar_imbalance_bar.bar.imb;
        self.processed.dollar_imbalance_thres = self.in_progress.dollar_imbalance_bar.bar.imb_thres;
        self.processed.dollar_imbalance_vwap = self.in_progress.dollar_imbalance_bar.bar.vwap;
        self.processed.dollar_imbalance_cvd = self.in_progress.dollar_imbalance_bar.bar.cvd;
    }

    /// Handles a trade processed at `now`. The record takes the trade's
    /// price and times; the trade's size is added to the maker quantity
    /// where the buyer was the maker, else to the taker quantity; all three
    /// engines advance. The record is returned for publishing, and then the
    /// two quantities start again from zero.
    pub fn handle_trade(&mut self, mkt_data: &MarketData, now: u64) -> (r: FeatureProcessed)
        ensures
            old(self).wf() ==> final(self).wf(),
            final(self).orderbook == old(self).orderbook,
            final(self).fresh_snapshot == old(self).fresh_snapshot,
            final(self).in_progress.trade_time == old(self).in_progress.trade_time,
            final(self).in_progress.event_time == old(self).in_progress.event_time,
            final(self).in_progress.processing_time == old(self).in_progress.processing_time,
            final(self).in_progress.volume_imbalance_bar.volume_type == old(
                self,
            ).in_progress.volume_imbalance_bar.volume_type,
            final(self).in_progress.dollar_imbalance_bar.volume_type == old(
                self,
            ).in_progress.dollar_imbalance_bar.volume_type,
            final(self).processed == (FeatureProcessed {
                maker_quantity: 0,
                taker_quantity: 0,
                ..r
            }),
            r.event_type == Some(EventType::Trade),
            r.price == mkt_data.price,
            r.trade_time == mkt_data.trade_time,
            r.event_time == mkt_data.event_time,
            r.processed_time == now,
            r.maker_quantity == (if mkt_data.buyer_market_maker {
                capped_sum(old(self).processed.maker_quantity as int, mkt_data.quantity as int)
            } else {
                old(self).processed.maker_quantity
            }),
            r.taker_quantity == (if mkt_data.buyer_market_maker {
                old(self).processed.taker_quantity
            } else {
                capped_sum(old(self).processed.taker_quantity as int, mkt_data.quantity as int)
            }),
            advanced(
                engine_step(
                    old(self).in_progress.tick_imbalance_bar.bar,
                    old(self).in_progress.tick_imbalance_bar.historical_threshold@,
                    old(self).in_progress.tick_imbalance_bar_init,
                    *mkt_data,
                    old(self).in_progress.tick_imbalance_bar.increment(*mkt_data),
                    0,
                ),
                old(self).in_progress.tick_imbalance_bar_init,
                old(self).processed.tick_imbalance_bar,
                final(self).in_progress.tick_imbalance_bar.bar,
                final(self).in_progress.tick_imbalance_bar.historical_threshold@,
                final(self).in_progress.tick_imbalance_bar_init,
                r.tick_imbalance_bar,
            ),
            advanced(
                engine_step(
                    old(self).in_progress.volume_imbalance_bar.bar,
                    old(self).in_progress.volume_imbalance_bar.historical_threshold@,
                    old(self).in_progress.volume_imbalance_bar_init,
                    *mkt_data,
                    old(self).in_progress.volume_imbalance_bar.increment(*mkt_data),
                    old(self).in_progress.volume_imbalance_bar.flow(*mkt_data),
                ),
                old(self).in_progress.volume_imbalance_bar_init,
                old(self).processed.volume_imbalance_bar,
                final(self).in_progress.volume_imbalance_bar.bar,
                final(self).in_progress.volume_imbalance_bar.historical_threshold@,
                final(self).in_progress.volume_imbalance_bar_init,
                r.volume_imbalance_bar,
            ),
            advanced(
                engine_step(
                    old(self).in_progress.dollar_imbalance_bar.bar,
                    old(self).in_progress.dollar_imbalance_bar.historical_threshold@,
                    old(self).in_progress.dollar_imbalance_bar_init,
                    *mkt_data,
                    old(self).in_progress.dollar_imbalance_bar.increment(*mkt_data),
                    old(self).in_progress.dollar_imbalance_bar.flow(*mkt_data),
                ),
                old(self).in_progress.dollar_imbalance_bar_init,
                old(self).processed.dollar_imbalance_bar,
                final(self).in_progress.dollar_imbalance_bar.bar,
                final(self).in_progress.dollar_imbalance_bar.historical_threshold@,
                final(self).in_progress.dollar_imbalance_bar_init,
                r.dollar_imbalance_bar,
            ),
            r == (FeatureProcessed {
                event_type: r.event_type,
                price: r.price,
                trade_time: r.trade_time,
                event_time: r.event_time,
                processed_time: r.processed_time,
                maker_quantity: r.maker_quantity,
                taker_quantity: r.taker_quantity,
                tick_imbalance_bar: r.tick_imbalance_bar,
                tick_imbalance_bar_init: final(self).in_progress.tick_imbalance_bar_init,
                tick_imbalance: final(self).in_progress.tick_imbalance_bar.bar.imb,
                tick_imbalance_thres: final(self).in_progress.tick_imbalance_bar.bar.imb_thres,
                tick_imbalance_vwap: final(self).in_progress.tick_imbalance_bar.bar.vwap,
                volume_imbalance_bar: r.volume_imbalance_bar,
                volume_imbalance_bar_init: final(self).in_progress.volume_imbalance_bar_init,
                volume_imbalance: final(self).in_progress.volume_imbalance_bar.bar.imb,
                volume_imbalance_thres: final(self).in_progress.volume_imbalance_bar.bar.imb_thres,
                volume_imbalance_vwap: final(self).in_progress.volume_imbalance_bar.bar.vwap,
                volume_imbalance_cvd: final(self).in_progress.volume_imbalance_bar.bar.cvd,
                dollar_imbalance_bar: r.dollar_imbalance_bar,
                dollar_imbalance_bar_init: final(self).in_progress.dollar_imbalance_bar_init,
                dollar_imbalance: final(self).in_progress.dollar_imbalance_bar.bar.imb,
                dollar_imbalance_thres: final(self).in_progress.dollar_imbalance_bar.bar.imb_thres,
                dollar_imbalance_vwap: final(self).in_progress.dollar_imbalance_bar.bar.vwap,
                dollar_imbalance_cvd: final(self).in_progress.dollar_imbalance_bar.bar.cvd,
                ..old(self).processed
            }),
            mkt_data.trade_time <= mkt_data.event_time <= now ==> times_in_order(r),
    {
        self.processed.price = mkt_data.price;
        self.processed.event_type = Some(EventType::Trade);
        if mkt_data.buyer_market_maker {
            self.processed.maker_quantity = self.processed.maker_quantity.saturating_add(
                mkt_data.quantity as u128,
            );
        } else {
            self.processed.taker_quantity = self.processed.taker_quantity.saturating_add(
                mkt_data.quantity as u128,
            );
        }
        self.update_volume_imbalance_bar(mkt_data);
        self.update_tick_imbalance_bar(mkt_data);
        self.update_dollar_imbalance_bar(mkt_data);
        self.processed.trade_time = mkt_data.trade_time;
        self.processed.event_time = mkt_data.event_time;
        self.processed.processed_time = now;
        let published = self.processed;
        self.processed.maker_quantity = 0;
        self.processed.taker_quantity = 0;
        published
    }

    /// What a depth record says of the book `book`, read at the last trade
    /// price `price` against the best levels cached in `before`: the
    /// imbalance at the best levels, the flow imbalance since the cached
    /// best levels, the new best levels and their spread, and the
    /// imbalance within the two bands around the price.
    pub open spec fn depth_record(
        before: FeatureProcessed,
        book: Orderbook,
        ev: OrderbookUpdateStream,
        now: u64,
    ) -> FeatureProcessed {
        let bid = book.best_bid_level();
        let ask = book.best_ask_level();
        FeatureProcessed {
            event_type: Some(EventType::Depth),
            trade_time: ev.trade_time,
            event_time: ev.event_time,
            processed_time: now,
            obi: imbalance_ratio(size_or_zero(bid) as int, size_or_zero(ask) as int) as i64,
            ofi: flow_imbalance_spec(before.best_bid, bid, before.best_ask, ask) as i128,
            best_bid: bid,
            best_ask: ask,
            ob_spread: (price_or_zero(ask) - price_or_zero(bid)) as i128,
            obi_range: (
                imbalance_ratio(
                    capped_volume(band_sum(book.bids.levels(), before.price, OBI_MARGIN_NARROW))
                        as int,
                    capped_volume(band_sum(book.asks.levels(), before.price, OBI_MARGIN_NARROW))
                        as int,
                ) as i64,
                imbalance_ratio(
                    capped_volume(band_sum(book.bids.levels(), before.price, OBI_MARGIN_WIDE))
                        as int,
                    capped_volume(band_sum(book.asks.levels(), before.price, OBI_MARGIN_WIDE))
                        as int,
                ) as i64,
            ),
            ..before
        }
    }

    /// Handles a depth update processed at `now`. The book takes the update
    /// in whatever the state of the record; the first update after a
    /// snapshot is placed by its id range alone. A record is published where the
    /// update was applied and a trade has been seen: it carries the
    /// update's times and the book's scalars, and the levels near the last
    /// trade price come with it. Otherwise the record stays as it was and
    /// nothing is published; on `Reinitialize` the caller fetches a
    /// snapshot for the book.
    pub fn handle_orderbook(&mut self, ev: &OrderbookUpdateStream, now: u64) -> (out: DepthOutcome)
        ensures
            old(self).wf() ==> final(self).wf(),
            apply_post(
                old(self).orderbook,
                if old(self).fresh_snapshot {
                    continuing(*ev)
                } else {
                    *ev
                },
                final(self).orderbook,
                out.result,
            ),
            final(self).fresh_snapshot == (old(self).fresh_snapshot && out.result
                != ApplyResult::Applied),
            final(self).in_progress == old(self).in_progress,
            out.published is Some <==> (out.result == ApplyResult::Applied && old(
                self,
            ).processed.price > 0),
            out.published matches Some(r) ==> {
                &&& r == Self::depth_record(old(self).processed, final(self).orderbook, *ev, now)
                &&& final(self).processed == r
                &&& out.near_price_bids@ == final(self).orderbook.bids.levels().filter(
                    |l: Level| near_below(l.price, r.price, old(self).near_margin()),
                )
                &&& out.near_price_asks@ == final(self).orderbook.asks.levels().filter(
                    |l: Level| near_above(l.price, r.price, old(self).near_margin()),
                )
                &&& (ev.trade_time <= ev.event_time <= now ==> times_in_order(r))
            },
            out.published is None ==> {
                &&& final(self).processed == old(self).processed
                &&& out.near_price_bids@ == Seq::<Level>::empty()
                &&& out.near_price_asks@ == Seq::<Level>::empty()
            },
    {
        let result = if self.fresh_snapshot {
            self.orderbook.apply_after_snapshot(ev)
        } else {
            self.orderbook.apply(ev)
        };
        let applied = match result {
            ApplyResult::Applied => true,
            _ => false,
        };
        if applied {
            self.fresh_snapshot = false;
        }
        if !applied || self.processed.price == 0 {
            return DepthOutcome {
                result,
                published: None,
                near_price_bids: Vec::new(),
                near_price_asks: Vec::new(),
            };
        }
        let bid = self.orderbook.bids.last();
        let ask = self.orderbook.asks.first();
        let price = self.processed.price;
        self.processed.event_type = Some(EventType::Depth);
        self.processed.trade_time = ev.trade_time;
        self.processed.event_time = ev.event_time;
        self.processed.processed_time = now;
        self.processed.obi = best_level_imbalance(bid, ask);
        self.processed.ofi = flow_imbalance(
            self.processed.best_bid,
            bid,
            self.processed.best_ask,
            ask,
        );
        self.processed.best_bid = bid;
        self.processed.best_ask = ask;
        let ask_price: i128 = match ask {
            Some(l) => l.price as i128,
            None => 0,
        };
        let bid_price: i128 = match bid {
            Some(l) => l.price as i128,
            None => 0,
        };
        self.processed.ob_spread = ask_price - bid_price;
        let narrow = imbalance_ratio_of(
            band_volume(&self.orderbook.bids, price, OBI_MARGIN_NARROW),
            band_volume(&self.orderbook.asks, price, OBI_MARGIN_NARROW),
        );
        let wide = imbalance_ratio_of(
            band_volume(&self.orderbook.bids, price, OBI_MARGIN_WIDE),
            band_volume(&self.orderbook.asks, price, OBI_MARGIN_WIDE),
        );
        self.processed.obi_range = (narrow, wide);
        let margin = match self.processed.source {
            Some(AssetSource::Spot) => NEAR_MARGIN_SPOT,
            _ => NEAR_MARGIN_FUTURE,
        };
        let near_price_bids = near_bids(&self.orderbook.bids, price, margin);
        let near_price_asks = near_asks(&self.orderbook.asks, price, margin);
        DepthOutcome { result, published: Some(self.processed), near_price_bids, near_price_asks }
    }

    /// Handles a mark-price update processed at `now`. The record takes the
    /// mark price, the funding rate, the next funding time and the event
    /// time, and is returned for publishing; then mark price and funding
    /// rate go back to zero. A mark-price update carries no trade time, so
    /// its event time stands for it.
    pub fn handle_mark_price(&mut self, mark: &MarkPriceData, now: u64) -> (r: FeatureProcessed)
        ensures
            r == (FeatureProcessed {
                event_type: Some(EventType::MarkPrice),
                trade_time: mark.event_time,
                event_time: mark.event_time,
                processed_time: now,
                mark_price: mark.mark_price,
                funding_rate: mark.funding_rate,
                next_funding_time: mark.next_funding_time,
                ..old(self).processed
            }),
            final(self).processed == (FeatureProcessed { mark_price: 0, funding_rate: 0, ..r }),
            final(self).in_progress == old(self).in_progress,
            final(self).orderbook == old(self).orderbook,
            final(self).fresh_snapshot == old(self).fresh_snapshot,
            mark.event_time <= now ==> times_in_order(r),
    {
        self.processed.event_type = Some(EventType::MarkPrice);
        self.processed.trade_time = mark.event_time;
        self.processed.event_time = mark.event_time;
        self.processed.processed_time = now;
        self.processed.mark_price = mark.mark_price;
        self.processed.funding_rate = mark.funding_rate;
        self.processed.next_funding_time = mark.next_funding_time;
        let published = self.processed;
        self.processed.mark_price = 0;
        self.processed.funding_rate = 0;
        published
    }

    /// Handles a liquidation processed at `now`. The record takes the side,
    /// the traded value and both times of the liquidation, and is returned
    /// for publishing; then side and value are cleared.
    pub fn handle_liquidation(&mut self, liq: &LiquidationData, now: u64) -> (r: FeatureProcessed)
        ensures
            r == (FeatureProcessed {
                event_type: Some(EventType::Liquidation),
                trade_time: liq.trade_time,
                event_time: liq.event_time,
                processed_time: now,
                liquidation_side: Some(liq.side),
                liquidation_dvolume: liquidation_value(*liq),
                ..old(self).processed
            }),
            final(self).processed == (FeatureProcessed {
                liquidation_side: None,
                liquidation_dvolume: 0,
                ..r
            }),
            final(self).in_progress == old(self).in_progress,
            final(self).orderbook == old(self).orderbook,
            final(self).fresh_snapshot == old(self).fresh_snapshot,
            liq.trade_time <= liq.event_time <= now ==> times_in_order(r),
    {
        assert(0 <= liq.quantity * liq.avg_price <= u128::MAX) by (nonlinear_arith)
            requires
                0 <= liq.quantity <= u64::MAX,
                0 <= liq.avg_price <= u64::MAX,
        ;
        let wide: u128 = (liq.quantity as u128) * (liq.avg_price as u128);
        self.processed.event_type = Some(EventType::Liquidation);
        self.processed.trade_time = liq.trade_time;
        self.processed.event_time = liq.event_time;
        self.processed.processed_time = now;
        self.processed.liquidation_side = Some(liq.side);
        self.processed.liquidation_dvolume = wide / (SCALE as u128);
        let published = self.processed;
        self.processed.liquidation_side = None;
        self.processed.liquidation_dvolume = 0;
        published
    }
}

/// A record is stamped with the time that its handler was given, so two
/// records in a row carry processing times in the order of the two clock
/// readings.
pub proof fn lemma_processed_time_follows_clock(
    first: FeatureProcessed,
    second: FeatureProcessed,
    now1: u64,
    now2: u64,
)
    requires
        first.processed_time == now1,
        second.processed_time == now2,
        now1 <= now2,
    ensures
        first.processed_time <= second.processed_time,
{
}

} // verus!
