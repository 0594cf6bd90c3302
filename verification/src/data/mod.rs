//! Typed venue events, and the wire records they are read from.

pub mod depth;
pub mod liquidation;
pub mod market;
pub mod markprice;
