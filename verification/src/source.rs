//! Tags: which market a stream comes from, and what kind of event a record
//! answers.

use vstd::prelude::*;

verus! {

/// The market that a feature engine reads.
#[derive(Clone, Copy, Debug, PartialEq, Eq, Structural)]
pub enum PrismaSource {
    Future,
    Spot,
}

impl PrismaSource {
    /// The one-letter tag of the market: "f" for the derivatives market,
    /// "s" for the spot market.
    pub fn as_str(&self) -> (r: &'static str)
        ensures
            r@ == (match *self {
                PrismaSource::Future => "f"@,
                PrismaSource::Spot => "s"@,
            }),
    {
        match self {
            PrismaSource::Future => "f",
            PrismaSource::Spot => "s",
        }
    }
}

/// The market that a stream merger serves.
#[derive(Clone, Copy, Debug, PartialEq, Eq, Structural)]
pub enum AssetSource {
    Future,
    Spot,
}

impl AssetSource {
    /// The one-letter tag of the market: "f" for the derivatives market,
    /// "s" for the spot market.
    pub fn as_str(&self) -> (r: &'static str)
        ensures
            r@ == (match *self {
                AssetSource::Future => "f"@,
                AssetSource::Spot => "s"@,
            }),
    {
        match self {
            AssetSource::Future => "f",
            AssetSource::Spot => "s",
        }
    }
}

/// The kind of event that a feature record was published for.
#[derive(Clone, Copy, Debug, PartialEq, Eq, Structural)]
pub enum EventType {
    Trade,
    Depth,
    MarkPrice,
    Liquidation,
}

impl EventType {
    /// The name of the kind as records carry it.
    pub fn as_str(&self) -> (r: &'static str)
        ensures
            r@ == (match *self {
                EventType::Trade => "AggTrade"@,
                EventType::Depth => "Orderbook"@,
                EventType::MarkPrice => "Mark Price"@,
                EventType::Liquidation => "Liquidation"@,
            }),
    {
        match self {
            EventType::Trade => "AggTrade",
            EventType::Depth => "Orderbook",
            EventType::MarkPrice => "Mark Price",
            EventType::Liquidation => "Liquidation",
        }
    }
}

} // verus!
