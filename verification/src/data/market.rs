//! Aggregated trades.

use vstd::prelude::*;
use crate::fixed::{amount_of, decimal_from_str, parse_amount};

verus! {

/// One aggregated trade, parsed. `buyer_market_maker` is true where the
/// resting order was the buy: the trade was a market sell.
#[derive(Clone, Copy, Debug, PartialEq, Eq, Structural)]
pub struct MarketData {
    pub price: u64,
    pub quantity: u64,
    pub buyer_market_maker: bool,
    pub trade_time: u64,
    pub event_time: u64,
}

/// An aggregated trade of the derivatives venue, as it is sent.
#[allow(non_snake_case)]
pub struct FutureAggTradeEvent {
    pub e: String,
    pub E: u64,
    pub s: String,
    pub a: u64,
    pub p: String,
    pub q: String,
    pub f: u64,
    pub l: u64,
    pub T: u64,
    pub m: bool,
}

/// A derivatives trade inside its stream envelope.
pub struct BinanceWebsocketFutureAggTrade {
    pub stream: String,
    pub data: FutureAggTradeEvent,
}

/// An aggregated trade of the spot venue, as it is sent.
#[allow(non_snake_case)]
pub struct SpotAggTradeEvent {
    pub e: String,
    pub E: u64,
    pub s: String,
    pub a: u64,
    pub p: String,
    pub q: String,
    pub f: u64,
    pub l: u64,
    pub T: u64,
    pub m: bool,
}

/// The trade that the fields of a trade message stand for: `None` where the
/// price or the quantity does not parse.
pub open spec fn trade_of(
    price: Seq<char>,
    quantity: Seq<char>,
    buyer_market_maker: bool,
    trade_time: u64,
    event_time: u64,
) -> Option<MarketData> {
    match (amount_of(decimal_from_str(price)), amount_of(decimal_from_str(quantity))) {
        (Some(price), Some(quantity)) => Some(
            MarketData { price, quantity, buyer_market_maker, trade_time, event_time },
        ),
        _ => None,
    }
}

/// Parses the fields of a trade message.
pub fn parse_trade(
    price: &str,
    quantity: &str,
    buyer_market_maker: bool,
    trade_time: u64,
    event_time: u64,
) -> (r: Option<MarketData>)
    ensures
        r == trade_of(price@, quantity@, buyer_market_maker, trade_time, event_time),
{
    match (parse_amount(price), parse_amount(quantity)) {
        (Some(price), Some(quantity)) => Some(
            MarketData { price, quantity, buyer_market_maker, trade_time, event_time },
        ),
        _ => None,
    }
}

/// Parses a derivatives trade message.
pub fn generate_future_aggtrade_update(update: &BinanceWebsocketFutureAggTrade) -> (r: Option<
    MarketData,
>)
    ensures
        r == trade_of(
            update.data.p@,
            update.data.q@,
            update.data.m,
            update.data.T,
            update.data.E,
        ),
{
    parse_trade(
        update.data.p.as_str(),
        update.data.q.as_str(),
        update.data.m,
        update.data.T,
        update.data.E,
    )
}

/// Parses a spot trade message.
pub fn generate_spot_aggtrade_update(update: &SpotAggTradeEvent) -> (r: Option<MarketData>)
    ensures
        r == trade_of(update.p@, update.q@, update.m, update.T, update.E),
{
    parse_trade(update.p.as_str(), update.q.as_str(), update.m, update.T, update.E)
}

} // verus!
