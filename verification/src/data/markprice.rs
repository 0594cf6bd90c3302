//! Mark price and funding of a derivatives venue.

use vstd::prelude::*;
use crate::fixed::{
    amount_of,
    decimal_from_str,
    parse_amount,
    parse_signed_amount,
    signed_amount_of,
};

verus! {

/// One mark-price update, parsed. The funding rate may be negative.
#[derive(Clone, Copy, Debug, PartialEq, Eq, Structural)]
pub struct MarkPriceData {
    pub mark_price: u64,
    pub index_price: u64,
    pub funding_rate: i64,
    pub next_funding_time: u64,
    pub event_time: u64,
}

/// A mark-price message, as the venue sends it.
#[allow(non_snake_case)]
pub struct FutureMarkPriceEvent {
    pub e: String,
    pub E: u64,
    pub s: String,
    pub p: String,
    pub i: String,
    pub P: String,
    pub r: String,
    pub T: u64,
}

/// A mark-price message inside its stream envelope.
pub struct BinanceWebsocketFutureMarkPrice {
    pub stream: String,
    pub data: FutureMarkPriceEvent,
}

/// The update that a mark-price message stands for: `None` where one of its
/// three numbers does not parse.
pub open spec fn mark_price_of(update: BinanceWebsocketFutureMarkPrice) -> Option<MarkPriceData> {
    match (
        amount_of(decimal_from_str(update.data.p@)),
        amount_of(decimal_from_str(update.data.i@)),
        signed_amount_of(decimal_from_str(update.data.r@)),
    ) {
        (Some(mark_price), Some(index_price), Some(funding_rate)) => Some(
            MarkPriceData {
                mark_price,
                index_price,
                funding_rate,
                next_funding_time: update.data.T,
                event_time: update.data.E,
            },
        ),
        _ => None,
    }
}

/// Parses a mark-price message.
pub fn generate_markprice_update(update: &BinanceWebsocketFutureMarkPrice) -> (r: Option<
    MarkPriceData,
>)
    ensures
        r == mark_price_of(*update),
{
    let mark_price = parse_amount(update.data.p.as_str());
    let index_price = parse_amount(update.data.i.as_str());
    let funding_rate = parse_signed_amount(update.data.r.as_str());
    match (mark_price, index_price, funding_rate) {
        (Some(mark_price), Some(index_price), Some(funding_rate)) => Some(
            MarkPriceData {
                mark_price,
                index_price,
                funding_rate,
                next_funding_time: update.data.T,
                event_time: update.data.E,
            },
        ),
        _ => None,
    }
}

} // verus!
