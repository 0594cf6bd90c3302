//! What a strategy reads: the latest figures of one market, its closed
//! bars and the book levels near the price; and one strategy's view of a
//! large resting order.

use vstd::prelude::*;
use std::collections::VecDeque;
use crate::bar::vwap::capped_sum;
use crate::bar_manager::{recorded, BarManager};
use crate::ladder::Level;
use crate::source::AssetSource;
use crate::stream::FeatureProcessed;

verus! {

/// The direction of a position.
#[derive(Clone, Copy, Debug, PartialEq, Eq, Structural)]
pub enum LongShort {
    Long,
    Short,
}

/// Limits of the trading side. Loss cut and take profit are fractions of
/// the entry price, as fixed-point values.
#[derive(Clone, Copy, Debug, PartialEq, Eq, Structural)]
pub struct TradeConfig {
    pub leverage: u8,
    pub max_leverage: u8,
    pub loss_cut: Option<u64>,
    pub take_profit: Option<u64>,
    pub data_dump: bool,
}

impl TradeConfig {
    /// No leverage, at most thirtyfold, a loss cut of 5 %, a take profit
    /// of 10 %, and no data dump.
    pub fn default() -> (r: Self)
        ensures
            r == (TradeConfig {
                leverage: 1,
                max_leverage: 30,
                loss_cut: Some(5_000_000),
                take_profit: Some(10_000_000),
                data_dump: false,
            }),
    {
        TradeConfig {
            leverage: 1,
            max_leverage: 30,
            loss_cut: Some(5_000_000),
            take_profit: Some(10_000_000),
            data_dump: false,
        }
    }

    /// Switches the data dump on or off.
    pub fn enable_data_dump(&mut self, data_dump: bool)
        ensures
            *final(self) == (TradeConfig { data_dump, ..*old(self) }),
    {
        self.data_dump = data_dump;
    }
}

/// Limits and costs of the trading side. Loss cut, take profit and trade
/// fees are fractions, as fixed-point values.
#[derive(Clone, Copy, Debug, PartialEq, Eq, Structural)]
pub struct PrismConfig {
    pub leverage: u8,
    pub max_leverage: u8,
    pub loss_cut: Option<u64>,
    pub take_profit: Option<u64>,
    pub trade_fees: u64,
    pub data_dump: bool,
}

impl PrismConfig {
    /// No leverage, at most thirtyfold, a loss cut of 5 %, a take profit
    /// of 10 %, fees of 0.04 % as a market taker pays them, and no data
    /// dump.
    pub fn default() -> (r: Self)
        ensures
            r == (PrismConfig {
                leverage: 1,
                max_leverage: 30,
                loss_cut: Some(5_000_000),
                take_profit: Some(10_000_000),
                trade_fees: 40_000,
                data_dump: false,
            }),
    {
        PrismConfig {
            leverage: 1,
            max_leverage: 30,
            loss_cut: Some(5_000_000),
            take_profit: Some(10_000_000),
            trade_fees: 40_000,
            data_dump: false,
        }
    }

    /// Switches the data dump on.
    pub fn enable_data_dump(&mut self)
        ensures
            *final(self) == (PrismConfig { data_dump: true, ..*old(self) }),
    {
        self.data_dump = true;
    }
}

/// The latest figures of one market, as a strategy reads them.
pub struct IntraParams {
    pub price: Option<u64>,
    pub data_time: Option<u64>,
    pub vwap: Option<u128>,
    pub tick_vwap: Option<u128>,
    pub tick_imbalance: Option<i128>,
    pub tick_imbalance_thres: Option<i128>,
    pub volume_vwap: Option<u128>,
    pub volume_cvd: Option<i128>,
    pub volume_imbalance: Option<i128>,
    pub volume_imbalance_thres: Option<i128>,
    pub dollar_vwap: Option<u128>,
    pub dollar_cvd: Option<i128>,
    pub dollar_imbalance: Option<i128>,
    pub dollar_imbalance_thres: Option<i128>,
    pub bars: BarManager,
    /// The bids near the price, as of the last depth record.
    pub bid_diff: Vec<Level>,
    /// The asks near the price, as of the last depth record.
    pub ask_diff: Vec<Level>,
}

impl IntraParams {
    /// Nothing known yet, and room for `historical_bars` closed bars of
    /// each kind.
    pub fn new(historical_bars: usize) -> (r: Self)
        ensures
            r.price is None,
            r.data_time is None,
            r.vwap is None,
            r.tick_vwap is None,
            r.tick_imbalance is None,
            r.tick_imbalance_thres is None,
            r.volume_vwap is None,
            r.volume_cvd is None,
            r.volume_imbalance is None,
            r.volume_imbalance_thres is None,
            r.dollar_vwap is None,
            r.dollar_cvd is None,
            r.dollar_imbalance is None,
            r.dollar_imbalance_thres is None,
            r.bars.tick_imbalance_bar_queue@ == Seq::<crate::bar::Bar>::empty(),
            r.bars.volume_imbalance_bar_queue@ == Seq::<crate::bar::Bar>::empty(),
            r.bars.dollar_imbalance_bar_queue@ == Seq::<crate::bar::Bar>::empty(),
            r.bars.tick_imbalance_bar_max_capa == historical_bars,
            r.bars.volume_imbalance_bar_max_capa == historical_bars,
            r.bars.dollar_imbalance_bar_max_capa == historical_bars,
            r.bid_diff@ == Seq::<Level>::empty(),
            r.ask_diff@ == Seq::<Level>::empty(),
    {
        IntraParams {
            price: None,
            data_time: None,
            vwap: None,
            tick_vwap: None,
            tick_imbalance: None,
            tick_imbalance_thres: None,
            volume_vwap: None,
            volume_cvd: None,
            volume_imbalance: None,
            volume_imbalance_thres: None,
            dollar_vwap: None,
            dollar_cvd: None,
            dollar_imbalance: None,
            dollar_imbalance_thres: None,
            bars: BarManager::new(historical_bars),
            bid_diff: Vec::new(),
            ask_diff: Vec::new(),
        }
    }

    /// Offers the record's three closed bars to the history.
    pub fn update_bars(&mut self, data: &FeatureProcessed)
        ensures
            final(self).bars.tick_imbalance_bar_queue@ == recorded(
                old(self).bars.tick_imbalance_bar_queue@,
                old(self).bars.tick_imbalance_bar_max_capa,
                data.tick_imbalance_bar,
            ),
            final(self).bars.volume_imbalance_bar_queue@ == recorded(
                old(self).bars.volume_imbalance_bar_queue@,
                old(self).bars.volume_imbalance_bar_max_capa,
                data.volume_imbalance_bar,
            ),
            final(self).bars.dollar_imbalance_bar_queue@ == recorded(
                old(self).bars.dollar_imbalance_bar_queue@,
                old(self).bars.dollar_imbalance_bar_max_capa,
                data.dollar_imbalance_bar,
            ),
            final(self).bars.tick_imbalance_bar_max_capa == old(
                self,
            ).bars.tick_imbalance_bar_max_capa,
            final(self).bars.volume_imbalance_bar_max_capa == old(
                self,
            ).bars.volume_imbalance_bar_max_capa,
            final(self).bars.dollar_imbalance_bar_max_capa == old(
                self,
            ).bars.dollar_imbalance_bar_max_capa,
            *final(self) == (IntraParams { bars: final(self).bars, ..*old(self) }),
    {
        self.bars.update_tick_imbalance_bar(&data.tick_imbalance_bar);
        self.bars.update_volume_imbalance_bar(&data.volume_imbalance_bar);
        self.bars.update_dollar_imbalance_bar(&data.dollar_imbalance_bar);
    }

    /// Takes the record's price, trade time and live bar figures. The
    /// summed flows are those of the latest closed bars; no time-bar
    /// average is kept.
    pub fn update_params(&mut self, data: &FeatureProcessed)
        ensures
            final(self).price == Some(data.price),
            final(self).data_time == Some(data.trade_time),
            final(self).vwap is None,
            final(self).tick_vwap == Some(data.tick_imbalance_vwap),
            final(self).tick_imbalance == Some(data.tick_imbalance),
            final(self).tick_imbalance_thres == Some(data.tick_imbalance_thres),
            final(self).volume_vwap == Some(data.volume_imbalance_vwap),
            final(self).volume_cvd == Some(data.volume_imbalance_bar.cvd),
            final(self).volume_imbalance == Some(data.volume_imbalance),
            final(self).volume_imbalance_thres == Some(data.volume_imbalance_thres),
            final(self).dollar_vwap == Some(data.dollar_imbalance_vwap),
            final(self).dollar_cvd == Some(data.dollar_imbalance_bar.cvd),
            final(self).dollar_imbalance == Some(data.dollar_imbalance),
            final(self).dollar_imbalance_thres == Some(data.dollar_imbalance_thres),
            final(self).bars == old(self).bars,
            final(self).bid_diff == old(self).bid_diff,
            final(self).ask_diff == old(self).ask_diff,
    {
        self.price = Some(data.price);
        self.data_time = Some(data.trade_time);
        self.vwap = None;
        self.tick_vwap = Some(data.tick_imbalance_vwap);
        self.tick_imbalance = Some(data.tick_imbalance);
        self.tick_imbalance_thres = Some(data.tick_imbalance_thres);
        self.volume_vwap = Some(data.volume_imbalance_vwap);
        self.volume_cvd = Some(data.volume_imbalance_bar.cvd);
        self.volume_imbalance = Some(data.volume_imbalance);
        self.volume_imbalance_thres = Some(data.volume_imbalance_thres);
        self.dollar_vwap = Some(data.dollar_imbalance_vwap);
        self.dollar_cvd = Some(data.dollar_imbalance_bar.cvd);
        self.dollar_imbalance = Some(data.dollar_imbalance);
        self.dollar_imbalance_thres = Some(data.dollar_imbalance_thres);
    }

    /// Takes the levels near the price that came with a depth record.
    pub fn update_near_levels(&mut self, bids: Vec<Level>, asks: Vec<Level>)
        ensures
            *final(self) == (IntraParams { bid_diff: bids, ask_diff: asks, ..*old(self) }),
    {
        self.bid_diff = bids;
        self.ask_diff = asks;
    }
}

/// The level of `s` with the highest price, the earliest of them where
/// several share it.
pub open spec fn highest(s: Seq<Level>) -> Level
    recommends
        s.len() > 0,
    decreases s.len(),
{
    if s.len() <= 1 {
        s[0]
    } else if s.last().price > highest(s.drop_last()).price {
        s.last()
    } else {
        highest(s.drop_last())
    }
}

/// The level of `s` with the lowest price, the earliest of them where
/// several share it.
pub open spec fn lowest(s: Seq<Level>) -> Level
    recommends
        s.len() > 0,
    decreases s.len(),
{
    if s.len() <= 1 {
        s[0]
    } else if s.last().price < lowest(s.drop_last()).price {
        s.last()
    } else {
        lowest(s.drop_last())
    }
}

/// The sizes of `s` summed, held at `u128::MAX`.
pub open spec fn total_size(s: Seq<Level>) -> u128
    decreases s.len(),
{
    if s.len() == 0 {
        0
    } else {
        capped_sum(total_size(s.drop_last()) as int, s.last().size as int)
    }
}

/// What the large-order strategy reads off one market: the best bid and
/// ask among the levels near the price, their spread as bid minus ask, and
/// the volume resting near the price on each side. No market order sizes
/// are known.
#[derive(Clone, Copy, Debug, PartialEq, Eq, Structural)]
pub struct SnipeLargeOrderParams {
    pub time: u64,
    pub price: u64,
    pub best_bid_price: u64,
    pub best_bid_volume: u64,
    pub best_ask_price: u64,
    pub best_ask_volume: u64,
    pub best_bid_ask_spread: i128,
    pub total_bid_volume: u128,
    pub total_ask_volume: u128,
    pub market_buy_size: Option<u64>,
    pub market_sell_size: Option<u64>,
}

/// The strategy's reading of `data`, where levels are near the price on
/// both sides.
pub open spec fn snipe_params(data: IntraParams) -> SnipeLargeOrderParams {
    let bid = highest(data.bid_diff@);
    let ask = lowest(data.ask_diff@);
    SnipeLargeOrderParams {
        time: match data.data_time {
            Some(t) => t,
            None => 0,
        },
        price: match data.price {
            Some(p) => p,
            None => 0,
        },
        best_bid_price: bid.price,
        best_bid_volume: bid.size,
        best_ask_price: ask.price,
        best_ask_volume: ask.size,
        best_bid_ask_spread: (bid.price - ask.price) as i128,
        total_bid_volume: total_size(data.bid_diff@),
        total_ask_volume: total_size(data.ask_diff@),
        market_buy_size: None,
        market_sell_size: None,
    }
}

/// The highest-priced, the lowest-priced and the summed size of a list of
/// levels that is not empty.
pub fn survey(levels: &Vec<Level>) -> (r: (Level, Level, u128))
    requires
        levels@.len() > 0,
    ensures
        r.0 == highest(levels@),
        r.1 == lowest(levels@),
        r.2 == total_size(levels@),
{
    let n = levels.len();
    let mut hi = levels[0];
    let mut lo = levels[0];
    let mut total: u128 = levels[0].size as u128;
    let mut i: usize = 1;
    proof {
        let one = levels@.take(1);
        assert(one.drop_last() =~= Seq::<Level>::empty());
        assert(one.last() == levels@[0]);
        assert(total_size(one.drop_last()) == 0);
    }
    while i < n
        invariant
            1 <= i <= n,
            n == levels@.len(),
            hi == highest(levels@.take(i as int)),
            lo == lowest(levels@.take(i as int)),
            total == total_size(levels@.take(i as int)),
        decreases n - i,
    {
        proof {
            assert(levels@.take(i + 1).drop_last() =~= levels@.take(i as int));
            assert(levels@.take(i + 1).last() == levels@[i as int]);
        }
        let l = levels[i];
        if l.price > hi.price {
            hi = l;
        }
        if l.price < lo.price {
            lo = l;
        }
        total = total.saturating_add(l.size as u128);
        i = i + 1;
    }
    assert(levels@.take(n as int) =~= levels@);
    (hi, lo, total)
}

/// The large-order strategy of one market.
pub struct SnipeLargeOrderStrategy {
    pub source: String,
}

impl SnipeLargeOrderStrategy {
    /// The strategy for the market named `source`.
    pub fn new(source: String) -> (r: Self)
        ensures
            r.source == source,
    {
        SnipeLargeOrderStrategy { source }
    }

    /// Whether the strategy has anything to say: it speaks for the market
    /// "Upbit Spot" only, and only where levels are near the price on both
    /// sides.
    pub open spec fn speaks(&self, data: IntraParams) -> bool {
        &&& self.source@ == "Upbit Spot"@
        &&& data.bid_diff@.len() > 0
        &&& data.ask_diff@.len() > 0
    }

    /// Reads the market off `data`, where the strategy has anything to
    /// say.
    pub fn evaluate(&mut self, data: &IntraParams) -> (r: Option<SnipeLargeOrderParams>)
        ensures
            final(self).source == old(self).source,
            r == (if old(self).speaks(*data) {
                Some(snipe_params(*data))
            } else {
                None::<SnipeLargeOrderParams>
            }),
    {
        let market = "Upbit Spot".to_owned();
        if !(self.source == market) {
            return None;
        }
        if data.bid_diff.len() == 0 || data.ask_diff.len() == 0 {
            return None;
        }
        let (best_bid, _, total_bid_volume) = survey(&data.bid_diff);
        let (_, best_ask, total_ask_volume) = survey(&data.ask_diff);
        Some(
            SnipeLargeOrderParams {
                time: match data.data_time {
                    Some(t) => t,
                    None => 0,
                },
                price: match data.price {
                    Some(p) => p,
                    None => 0,
                },
                best_bid_price: best_bid.price,
                best_bid_volume: best_bid.size,
                best_ask_price: best_ask.price,
                best_ask_volume: best_ask.size,
                best_bid_ask_spread: (best_bid.price as i128) - (best_ask.price as i128),
                total_bid_volume,
                total_ask_volume,
                market_buy_size: None,
                market_sell_size: None,
            },
        )
    }
}

/// The latest figures of one market as the trade computer keeps them: the
/// price, the live average price and imbalance of each kind of bar with
/// its threshold, every average price seen so far, oldest first, and the
/// closed bars.
pub struct MarketFigures {
    pub price: Option<u64>,
    pub tick_vwap: Option<u128>,
    pub volume_vwap: Option<u128>,
    pub dollar_vwap: Option<u128>,
    pub historical_tick_vwap: VecDeque<u128>,
    pub historical_volume_vwap: VecDeque<u128>,
    pub historical_dollar_vwap: VecDeque<u128>,
    pub tick_imbalance: Option<i128>,
    pub tick_imbalance_thres: Option<i128>,
    pub volume_imbalance: Option<i128>,
    pub volume_imbalance_thres: Option<i128>,
    pub dollar_imbalance: Option<i128>,
    pub dollar_imbalance_thres: Option<i128>,
    pub bars: BarManager,
}

impl MarketFigures {
    /// What a record says of its market, beside what was known: the
    /// figures are those of the record, and each average price joins its
    /// history. The closed bars are left as they are.
    pub open spec fn holds_after(self, before: MarketFigures, data: FeatureProcessed) -> bool {
        &&& self.price == Some(data.price)
        &&& self.tick_vwap == Some(data.tick_imbalance_vwap)
        &&& self.volume_vwap == Some(data.volume_imbalance_vwap)
        &&& self.dollar_vwap == Some(data.dollar_imbalance_vwap)
        &&& self.historical_tick_vwap@ == before.historical_tick_vwap@.push(
            data.tick_imbalance_vwap,
        )
        &&& self.historical_volume_vwap@ == before.historical_volume_vwap@.push(
            data.volume_imbalance_vwap,
        )
        &&& self.historical_dollar_vwap@ == before.historical_dollar_vwap@.push(
            data.dollar_imbalance_vwap,
        )
        &&& self.tick_imbalance == Some(data.tick_imbalance)
        &&& self.tick_imbalance_thres == Some(data.tick_imbalance_thres)
        &&& self.volume_imbalance == Some(data.volume_imbalance)
        &&& self.volume_imbalance_thres == Some(data.volume_imbalance_thres)
        &&& self.dollar_imbalance == Some(data.dollar_imbalance)
        &&& self.dollar_imbalance_thres == Some(data.dollar_imbalance_thres)
        &&& self.bars == before.bars
    }

    /// Nothing known yet, and room for `historical_bars` closed bars of
    /// each kind.
    pub fn new(historical_bars: usize) -> (r: Self)
        ensures
            r.price is None,
            r.tick_vwap is None,
            r.volume_vwap is None,
            r.dollar_vwap is None,
            r.historical_tick_vwap@ == Seq::<u128>::empty(),
            r.historical_volume_vwap@ == Seq::<u128>::empty(),
            r.historical_dollar_vwap@ == Seq::<u128>::empty(),
            r.tick_imbalance is None,
            r.tick_imbalance_thres is None,
            r.volume_imbalance is None,
            r.volume_imbalance_thres is None,
            r.dollar_imbalance is None,
            r.dollar_imbalance_thres is None,
            r.bars.tick_imbalance_bar_queue@ == Seq::<crate::bar::Bar>::empty(),
            r.bars.volume_imbalance_bar_queue@ == Seq::<crate::bar::Bar>::empty(),
            r.bars.dollar_imbalance_bar_queue@ == Seq::<crate::bar::Bar>::empty(),
            r.bars.tick_imbalance_bar_max_capa == historical_bars,
            r.bars.volume_imbalance_bar_max_capa == historical_bars,
            r.bars.dollar_imbalance_bar_max_capa == historical_bars,
    {
        MarketFigures {
            price: None,
            tick_vwap: None,
            volume_vwap: None,
            dollar_vwap: None,
            historical_tick_vwap: VecDeque::new(),
            historical_volume_vwap: VecDeque::new(),
            historical_dollar_vwap: VecDeque::new(),
            tick_imbalance: None,
            tick_imbalance_thres: None,
            volume_imbalance: None,
            volume_imbalance_thres: None,
            dollar_imbalance: None,
            dollar_imbalance_thres: None,
            bars: BarManager::new(historical_bars),
        }
    }

    /// Takes the figures of a record.
    pub fn take(&mut self, data: &FeatureProcessed)
        ensures
            final(self).holds_after(*old(self), *data),
    {
        self.price = Some(data.price);
        self.tick_vwap = Some(data.tick_imbalance_vwap);
        self.volume_vwap = Some(data.volume_imbalance_vwap);
        self.dollar_vwap = Some(data.dollar_imbalance_vwap);
        self.tick_imbalance = Some(data.tick_imbalance);
        self.volume_imbalance = Some(data.volume_imbalance);
        self.dollar_imbalance = Some(data.dollar_imbalance);
        self.historical_tick_vwap.push_back(data.tick_imbalance_vwap);
        self.historical_volume_vwap.push_back(data.volume_imbalance_vwap);
        self.historical_dollar_vwap.push_back(data.dollar_imbalance_vwap);
        self.tick_imbalance_thres = Some(data.tick_imbalance_thres);
        self.volume_imbalance_thres = Some(data.volume_imbalance_thres);
        self.dollar_imbalance_thres = Some(data.dollar_imbalance_thres);
    }

    /// Offers the record's three closed bars to the history.
    pub fn take_bars(&mut self, data: &FeatureProcessed)
        ensures
            final(self).bars.tick_imbalance_bar_queue@ == recorded(
                old(self).bars.tick_imbalance_bar_queue@,
                old(self).bars.tick_imbalance_bar_max_capa,
                data.tick_imbalance_bar,
            ),
            final(self).bars.volume_imbalance_bar_queue@ == recorded(
                old(self).bars.volume_imbalance_bar_queue@,
                old(self).bars.volume_imbalance_bar_max_capa,
                data.volume_imbalance_bar,
            ),
            final(self).bars.dollar_imbalance_bar_queue@ == recorded(
                old(self).bars.dollar_imbalance_bar_queue@,
                old(self).bars.dollar_imbalance_bar_max_capa,
                data.dollar_imbalance_bar,
            ),
            final(self).bars.tick_imbalance_bar_max_capa == old(
                self,
            ).bars.tick_imbalance_bar_max_capa,
            final(self).bars.volume_imbalance_bar_max_capa == old(
                self,
            ).bars.volume_imbalance_bar_max_capa,
            final(self).bars.dollar_imbalance_bar_max_capa == old(
                self,
            ).bars.dollar_imbalance_bar_max_capa,
            *final(self) == (MarketFigures { bars: final(self).bars, ..*old(self) }),
    {
        self.bars.update_tick_imbalance_bar(&data.tick_imbalance_bar);
        self.bars.update_volume_imbalance_bar(&data.volume_imbalance_bar);
        self.bars.update_dollar_imbalance_bar(&data.dollar_imbalance_bar);
    }
}

/// The difference between the derivatives price and the spot price, once
/// both are known; what it was before until then.
pub open spec fn divergence(
    future_price: Option<u64>,
    spot_price: Option<u64>,
    before: Option<i128>,
) -> Option<i128> {
    match (future_price, spot_price) {
        (Some(f), Some(s)) => Some((f - s) as i128),
        _ => before,
    }
}

/// The figures of the derivatives market and of the spot market side by
/// side, and how far their prices are apart.
pub struct TradeComputer {
    pub future: MarketFigures,
    pub spot: MarketFigures,
    pub future_spot_divergence: Option<i128>,
}

impl TradeComputer {
    /// Nothing known of either market, and room for a hundred closed bars
    /// of each kind on each.
    pub fn new() -> (r: Self)
        ensures
            r.future.price is None,
            r.spot.price is None,
            r.future_spot_divergence is None,
            r.future.bars.tick_imbalance_bar_max_capa == 100,
            r.spot.bars.tick_imbalance_bar_max_capa == 100,
            r.future.bars.tick_imbalance_bar_queue@ == Seq::<crate::bar::Bar>::empty(),
            r.spot.bars.tick_imbalance_bar_queue@ == Seq::<crate::bar::Bar>::empty(),
            r.future.historical_tick_vwap@ == Seq::<u128>::empty(),
            r.spot.historical_tick_vwap@ == Seq::<u128>::empty(),
    {
        TradeComputer {
            future: MarketFigures::new(100),
            spot: MarketFigures::new(100),
            future_spot_divergence: None,
        }
    }

    /// Offers the closed bars of a derivatives record to the history.
    pub fn update_future_bars(&mut self, data: &FeatureProcessed)
        ensures
            final(self).future.bars.tick_imbalance_bar_queue@ == recorded(
                old(self).future.bars.tick_imbalance_bar_queue@,
                old(self).future.bars.tick_imbalance_bar_max_capa,
                data.tick_imbalance_bar,
            ),
            final(self).future.bars.volume_imbalance_bar_queue@ == recorded(
                old(self).future.bars.volume_imbalance_bar_queue@,
                old(self).future.bars.volume_imbalance_bar_max_capa,
                data.volume_imbalance_bar,
            ),
            final(self).future.bars.dollar_imbalance_bar_queue@ == recorded(
                old(self).future.bars.dollar_imbalance_bar_queue@,
                old(self).future.bars.dollar_imbalance_bar_max_capa,
                data.dollar_imbalance_bar,
            ),
            final(self).future == (MarketFigures {
                bars: final(self).future.bars,
                ..old(self).future
            }),
            final(self).spot == old(self).spot,
            final(self).future_spot_divergence == old(self).future_spot_divergence,
    {
        self.future.take_bars(data);
    }

    /// Offers the closed bars of a spot record to the history.
    pub fn update_spot_bars(&mut self, data: &FeatureProcessed)
        ensures
            final(self).spot.bars.tick_imbalance_bar_queue@ == recorded(
                old(self).spot.bars.tick_imbalance_bar_queue@,
                old(self).spot.bars.tick_imbalance_bar_max_capa,
                data.tick_imbalance_bar,
            ),
            final(self).spot.bars.volume_imbalance_bar_queue@ == recorded(
                old(self).spot.bars.volume_imbalance_bar_queue@,
                old(self).spot.bars.volume_imbalance_bar_max_capa,
                data.volume_imbalance_bar,
            ),
            final(self).spot.bars.dollar_imbalance_bar_queue@ == recorded(
                old(self).spot.bars.dollar_imbalance_bar_queue@,
                old(self).spot.bars.dollar_imbalance_bar_max_capa,
                data.dollar_imbalance_bar,
            ),
            final(self).spot == (MarketFigures { bars: final(self).spot.bars, ..old(self).spot }),
            final(self).future == old(self).future,
            final(self).future_spot_divergence == old(self).future_spot_divergence,
    {
        self.spot.take_bars(data);
    }

    /// Takes the figures of a record into the market it comes from, and
    /// works out how far the two prices are apart once both are known.
    pub fn update_trade_params(&mut self, data: &FeatureProcessed, source: AssetSource)
        ensures
            source == AssetSource::Future ==> final(self).future.holds_after(
                old(self).future,
                *data,
            ) && final(self).spot == old(self).spot,
            source == AssetSource::Spot ==> final(self).spot.holds_after(old(self).spot, *data)
                && final(self).future == old(self).future,
            final(self).future_spot_divergence == divergence(
                final(self).future.price,
                final(self).spot.price,
                old(self).future_spot_divergence,
            ),
    {
        match source {
            AssetSource::Future => {
                self.future.take(data);
            },
            AssetSource::Spot => {
                self.spot.take(data);
            },
        }
        match (self.future.price, self.spot.price) {
            (Some(f), Some(s)) => {
                self.future_spot_divergence = Some((f as i128) - (s as i128));
            },
            _ => {},
        }
    }
}

} // verus!
