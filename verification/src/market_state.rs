//! The latest state of one market: last trade, mark price, last liquidation
//! and the book, each overwritten by the event that carries it.

use vstd::prelude::*;
use crate::data::depth::{DepthSnapshot, OrderbookUpdateStream};
use crate::data::liquidation::{LiquidationData, LiquidationSide};
use crate::data::market::MarketData;
use crate::data::markprice::MarkPriceData;
use crate::ladder::{apply_levels, Level};
use crate::orderbook::{apply_post, continuing, ApplyResult, Orderbook};

verus! {

/// The latest figures of one market. Mark price, index price and funding
/// are known on a derivatives market only, and only once a mark-price
/// update was seen.
#[derive(Clone, Copy, Debug, PartialEq, Eq, Structural)]
pub struct MarketState {
    pub event_time: u64,
    pub transaction_time: u64,
    pub price: u64,
    pub index_price: Option<u64>,
    pub vwap: Option<u128>,
    pub sell_quantity: u64,
    pub buy_quantity: u64,
    pub mark_price: Option<u64>,
    pub funding_rate: Option<i64>,
    pub next_funding_time: Option<u64>,
    pub liq_quantity: u64,
    pub liq_price: u64,
    pub liq_side: Option<LiquidationSide>,
}

impl MarketState {
    /// What `new` returns: nothing seen yet.
    pub open spec fn new_spec() -> MarketState {
        MarketState {
            event_time: 0,
            transaction_time: 0,
            price: 0,
            index_price: None,
            vwap: None,
            sell_quantity: 0,
            buy_quantity: 0,
            mark_price: None,
            funding_rate: None,
            next_funding_time: None,
            liq_quantity: 0,
            liq_price: 0,
            liq_side: None,
        }
    }

    /// The state after the trade `market`: its times and price, and its
    /// size as the sold quantity where the buyer was the maker, else as the
    /// bought quantity, the other quantity at zero.
    pub open spec fn after_trade(self, market: MarketData) -> MarketState {
        MarketState {
            event_time: market.event_time,
            transaction_time: market.trade_time,
            price: market.price,
            sell_quantity: if market.buyer_market_maker {
                market.quantity
            } else {
                0
            },
            buy_quantity: if market.buyer_market_maker {
                0
            } else {
                market.quantity
            },
            ..self
        }
    }

    /// The state after the mark-price update `mark`.
    pub open spec fn after_mark_price(self, mark: MarkPriceData) -> MarketState {
        MarketState {
            event_time: mark.event_time,
            mark_price: Some(mark.mark_price),
            index_price: Some(mark.index_price),
            funding_rate: Some(mark.funding_rate),
            next_funding_time: Some(mark.next_funding_time),
            ..self
        }
    }

    /// The state after the liquidation `liq`.
    pub open spec fn after_liquidation(self, liq: LiquidationData) -> MarketState {
        MarketState {
            liq_quantity: liq.quantity,
            liq_price: liq.avg_price,
            liq_side: Some(liq.side),
            ..self
        }
    }

    /// A state that has seen nothing.
    pub fn new() -> (r: Self)
        ensures
            r == MarketState::new_spec(),
    {
        MarketState {
            event_time: 0,
            transaction_time: 0,
            price: 0,
            index_price: None,
            vwap: None,
            sell_quantity: 0,
            buy_quantity: 0,
            mark_price: None,
            funding_rate: None,
            next_funding_time: None,
            liq_quantity: 0,
            liq_price: 0,
            liq_side: None,
        }
    }
}

/// One market's state and its book.
pub struct Core {
    pub market_state: MarketState,
    pub total_orderbook: Orderbook,
    /// Set from the moment a snapshot is installed until an update has been
    /// applied on top of it.
    pub fresh_snapshot: bool,
}

impl Core {
    /// The book is in price order and holds no empty level.
    pub open spec fn wf(&self) -> bool {
        self.total_orderbook.wf()
    }

    /// A core that has seen nothing.
    pub fn new() -> (r: Self)
        ensures
            r.wf(),
            r.market_state == MarketState::new_spec(),
            r.total_orderbook.bids.levels() == Seq::<Level>::empty(),
            r.total_orderbook.asks.levels() == Seq::<Level>::empty(),
            r.total_orderbook.bids@ == Map::<u64, u64>::empty(),
            r.total_orderbook.asks@ == Map::<u64, u64>::empty(),
            r.total_orderbook.last_update_id == 0,
            !r.fresh_snapshot,
    {
        Core {
            market_state: MarketState::new(),
            total_orderbook: Orderbook::new(),
            fresh_snapshot: false,
        }
    }

    /// Takes a trade into the state.
    pub fn handle_trade(&mut self, market: &MarketData)
        ensures
            final(self).market_state == old(self).market_state.after_trade(*market),
            final(self).total_orderbook == old(self).total_orderbook,
            final(self).fresh_snapshot == old(self).fresh_snapshot,
    {
        self.market_state.event_time = market.event_time;
        self.market_state.transaction_time = market.trade_time;
        self.market_state.price = market.price;
        if market.buyer_market_maker {
            self.market_state.sell_quantity = market.quantity;
            self.market_state.buy_quantity = 0;
        } else {
            self.market_state.buy_quantity = market.quantity;
            self.market_state.sell_quantity = 0;
        }
    }

    /// Takes a mark-price update into the state.
    pub fn handle_mark_price(&mut self, mark: &MarkPriceData)
        ensures
            final(self).market_state == old(self).market_state.after_mark_price(*mark),
            final(self).total_orderbook == old(self).total_orderbook,
            final(self).fresh_snapshot == old(self).fresh_snapshot,
    {
        self.market_state.event_time = mark.event_time;
        self.market_state.mark_price = Some(mark.mark_price);
        self.market_state.index_price = Some(mark.index_price);
        self.market_state.funding_rate = Some(mark.funding_rate);
        self.market_state.next_funding_time = Some(mark.next_funding_time);
    }

    /// Takes a liquidation into the state.
    pub fn handle_liquidation(&mut self, liq: &LiquidationData)
        ensures
            final(self).market_state == old(self).market_state.after_liquidation(*liq),
            final(self).total_orderbook == old(self).total_orderbook,
            final(self).fresh_snapshot == old(self).fresh_snapshot,
    {
        self.market_state.liq_quantity = liq.quantity;
        self.market_state.liq_price = liq.avg_price;
        self.market_state.liq_side = Some(liq.side);
    }

    /// Installs a snapshot as the market's book. The update that follows
    /// is then placed by its id range alone.
    pub fn handle_snapshot(&mut self, snapshot: &DepthSnapshot)
        ensures
            final(self).fresh_snapshot,
            final(self).wf(),
            final(self).total_orderbook.bids@ == apply_levels(
                Map::<u64, u64>::empty(),
                snapshot.bids@,
            ),
            final(self).total_orderbook.asks@ == apply_levels(
                Map::<u64, u64>::empty(),
                snapshot.asks@,
            ),
            final(self).total_orderbook.last_update_id == snapshot.last_update_id,
            final(self).market_state == old(self).market_state,
    {
        self.total_orderbook.reset_from(snapshot);
        self.fresh_snapshot = true;
    }

    /// Takes a depth update into the book, in sequence: a stale update is
    /// dropped, a gap empties the book until a snapshot is installed, and
    /// an update in sequence is applied. The first update after a snapshot
    /// is placed by its id range alone.
    pub fn handle_orderbook(&mut self, ob: &OrderbookUpdateStream) -> (r: ApplyResult)
        ensures
            apply_post(
                old(self).total_orderbook,
                if old(self).fresh_snapshot {
                    continuing(*ob)
                } else {
                    *ob
                },
                final(self).total_orderbook,
                r,
            ),
            final(self).fresh_snapshot == (old(self).fresh_snapshot && r != ApplyResult::Applied),
            final(self).market_state == old(self).market_state,
    {
        let r = if self.fresh_snapshot {
            self.total_orderbook.apply_after_snapshot(ob)
        } else {
            self.total_orderbook.apply(ob)
        };
        match r {
            ApplyResult::Applied => {
                self.fresh_snapshot = false;
            },
            _ => {},
        }
        r
    }
}

} // verus!
