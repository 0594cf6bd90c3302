//! Forced-liquidation events of a derivatives venue.

use vstd::prelude::*;
use crate::fixed::{amount_of, decimal_from_str, parse_amount};

verus! {

/// The side of the order that liquidated a position.
#[derive(Clone, Copy, Debug, PartialEq, Eq, Structural)]
pub enum LiquidationSide {
    Buy,
    Sell,
}

/// The order inside a liquidation message, as the venue sends it.
#[allow(non_snake_case)]
pub struct FutureLiquidationOrder {
    pub s: String,
    pub S: String,
    pub o: String,
    pub f: String,
    pub q: String,
    pub p: String,
    pub ap: String,
    pub X: String,
    pub l: String,
    pub z: String,
    pub T: u64,
}

/// A liquidation message, as the venue sends it.
#[allow(non_snake_case)]
pub struct FutureLiquidationEvent {
    pub e: String,
    pub E: u64,
    pub o: FutureLiquidationOrder,
}

/// A liquidation message inside its stream envelope.
pub struct BinanceWebsocketFutureLiquidation {
    pub streams: String,
    pub data: FutureLiquidationEvent,
}

/// A liquidation, parsed.
#[derive(Clone, Copy, Debug, PartialEq, Eq, Structural)]
pub struct LiquidationData {
    pub side: LiquidationSide,
    pub avg_price: u64,
    pub quantity: u64,
    pub trade_time: u64,
    pub event_time: u64,
}

/// The side that a venue's side text names.
pub open spec fn side_of(text: Seq<char>) -> Option<LiquidationSide> {
    if text == "BUY"@ {
        Some(LiquidationSide::Buy)
    } else if text == "SELL"@ {
        Some(LiquidationSide::Sell)
    } else {
        None
    }
}

/// Reads the side of a liquidation order.
pub fn parse_side(text: &String) -> (r: Option<LiquidationSide>)
    ensures
        r == side_of(text@),
{
    let buy = "BUY".to_owned();
    let sell = "SELL".to_owned();
    if *text == buy {
        Some(LiquidationSide::Buy)
    } else if *text == sell {
        Some(LiquidationSide::Sell)
    } else {
        None
    }
}

/// The liquidation that a message stands for: its side, average price and
/// ordered quantity, with the order's trade time and the message's event
/// time. `None` where the side is unknown or a number does not parse.
pub open spec fn liquidation_of(update: BinanceWebsocketFutureLiquidation) -> Option<
    LiquidationData,
> {
    match (
        side_of(update.data.o.S@),
        amount_of(decimal_from_str(update.data.o.ap@)),
        amount_of(decimal_from_str(update.data.o.q@)),
    ) {
        (Some(side), Some(avg_price), Some(quantity)) => Some(
            LiquidationData {
                side,
                avg_price,
                quantity,
                trade_time: update.data.o.T,
                event_time: update.data.E,
            },
        ),
        _ => None,
    }
}

/// Parses a liquidation message.
pub fn generate_liquidation_update(update: &BinanceWebsocketFutureLiquidation) -> (r: Option<
    LiquidationData,
>)
    ensures
        r == liquidation_of(*update),
{
    let side = parse_side(&update.data.o.S);
    let avg_price = parse_amount(update.data.o.ap.as_str());
    let quantity = parse_amount(update.data.o.q.as_str());
    match (side, avg_price, quantity) {
        (Some(side), Some(avg_price), Some(quantity)) => Some(
            LiquidationData {
                side,
                avg_price,
                quantity,
                trade_time: update.data.o.T,
                event_time: update.data.E,
            },
        ),
        _ => None,
    }
}

} // verus!
