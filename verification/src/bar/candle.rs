//! Time extent, prices and volumes of one bar.

use vstd::prelude::*;
use crate::bar::vwap::{capped_sum, Vwap};

verus! {

/// The later of two times.
pub open spec fn later(a: u64, b: u64) -> u64 {
    if a >= b {
        a
    } else {
        b
    }
}

/// The larger of two prices.
pub open spec fn higher(a: u64, b: u64) -> u64 {
    if a >= b {
        a
    } else {
        b
    }
}

/// The smaller of two prices.
pub open spec fn lower(a: u64, b: u64) -> u64 {
    if a <= b {
        a
    } else {
        b
    }
}

/// `n + 1`, held at `u64::MAX`.
pub open spec fn next_count(n: u64) -> u64 {
    if n == u64::MAX {
        n
    } else {
        (n + 1) as u64
    }
}

/// Start and end time, open, high, low and close, the sums for the average
/// price, the volume bought and sold at market, and the number of ticks.
/// A candle that has taken no tick since it was made or cleared has no
/// times and no open, high or low; its close may be left from the bar
/// before.
#[derive(Clone, Copy, Debug, PartialEq, Eq, Structural)]
pub struct Candle {
    pub ts: Option<u64>,
    pub te: Option<u64>,
    pub po: Option<u64>,
    pub ph: Option<u64>,
    pub pl: Option<u64>,
    pub pc: Option<u64>,
    pub vwap: Vwap,
    pub buy_volume: u128,
    pub sell_volume: u128,
    pub tick_count: u64,
}

impl Candle {
    /// Whether the candle has taken a tick.
    pub open spec fn started(self) -> bool {
        self.ts is Some
    }

    /// Times and prices are all there or, but for the close, all missing;
    /// where they are there, the start is no later than the end, open and
    /// close lie between low and high, and at least one tick was counted.
    pub open spec fn wf(self) -> bool {
        &&& self.vwap.wf()
        &&& self.te is Some <==> self.ts is Some
        &&& self.po is Some <==> self.ts is Some
        &&& self.ph is Some <==> self.ts is Some
        &&& self.pl is Some <==> self.ts is Some
        &&& self.ts is Some ==> {
            &&& self.pc is Some
            &&& self.ts->0 <= self.te->0
            &&& self.pl->0 <= self.po->0 <= self.ph->0
            &&& self.pl->0 <= self.pc->0 <= self.ph->0
            &&& self.tick_count >= 1
        }
    }

    /// The candle after one more tick.
    pub open spec fn updated(self, timestamp: u64, price: u64, volume: u64, sell_side: bool) -> Candle {
        Candle {
            ts: if self.ts is None {
                Some(timestamp)
            } else {
                self.ts
            },
            te: Some(
                match self.te {
                    Some(e) => later(e, timestamp),
                    None => timestamp,
                },
            ),
            po: if self.po is None {
                Some(price)
            } else {
                self.po
            },
            ph: Some(
                match self.ph {
                    Some(h) => higher(h, price),
                    None => price,
                },
            ),
            pl: Some(
                match self.pl {
                    Some(l) => lower(l, price),
                    None => price,
                },
            ),
            pc: Some(price),
            vwap: self.vwap.updated(price, volume),
            buy_volume: if sell_side {
                self.buy_volume
            } else {
                capped_sum(self.buy_volume as int, volume as int)
            },
            sell_volume: if sell_side {
                capped_sum(self.sell_volume as int, volume as int)
            } else {
                self.sell_volume
            },
            tick_count: next_count(self.tick_count),
        }
    }

    /// The candle with everything cleared but its close.
    pub open spec fn cleared(self) -> Candle {
        Candle {
            ts: None,
            te: None,
            po: None,
            ph: None,
            pl: None,
            pc: self.pc,
            vwap: Vwap { cumul_price_volume: 0, cumul_volume: 0 },
            buy_volume: 0,
            sell_volume: 0,
            tick_count: 0,
        }
    }

    /// What `new` returns.
    pub open spec fn new_spec() -> Candle {
        Candle {
            ts: None,
            te: None,
            po: None,
            ph: None,
            pl: None,
            pc: None,
            vwap: Vwap { cumul_price_volume: 0, cumul_volume: 0 },
            buy_volume: 0,
            sell_volume: 0,
            tick_count: 0,
        }
    }

    /// A candle that has seen nothing.
    pub fn new() -> (r: Self)
        ensures
            r == Candle::new_spec(),
            r.wf(),
    {
        Candle {
            ts: None,
            te: None,
            po: None,
            ph: None,
            pl: None,
            pc: None,
            vwap: Vwap::new(),
            buy_volume: 0,
            sell_volume: 0,
            tick_count: 0,
        }
    }

    /// Takes one tick: the first sets the start time and the open; each
    /// sets the close, moves the end time forward where the tick is later,
    /// moves high and low, adds its volume to the side that traded at
    /// market and to the average's sums, and is counted. A tick timed
    /// before the end of the candle leaves the end where it is.
    pub fn update(&mut self, timestamp: u64, price: u64, volume: u64, sell_side: bool)
        ensures
            *final(self) == old(self).updated(timestamp, price, volume, sell_side),
            final(self).started(),
            final(self).tick_count >= 1,
            old(self).wf() ==> final(self).wf(),
    {
        if self.ts.is_none() {
            self.ts = Some(timestamp);
        }
        match self.te {
            Some(e) => {
                if timestamp > e {
                    self.te = Some(timestamp);
                }
            },
            None => {
                self.te = Some(timestamp);
            },
        }
        if self.po.is_none() {
            self.po = Some(price);
        }
        match self.ph {
            Some(h) => {
                if price >= h {
                    self.ph = Some(price);
                }
            },
            None => {
                self.ph = Some(price);
            },
        }
        match self.pl {
            Some(l) => {
                if price <= l {
                    self.pl = Some(price);
                }
            },
            None => {
                self.pl = Some(price);
            },
        }
        self.pc = Some(price);
        if sell_side {
            self.sell_volume = self.sell_volume.saturating_add(volume as u128);
        } else {
            self.buy_volume = self.buy_volume.saturating_add(volume as u128);
        }
        self.vwap.update(price, volume);
        if self.tick_count < u64::MAX {
            self.tick_count = self.tick_count + 1;
        }
    }

    /// Clears everything but the close, which the next bar measures its
    /// first price change against.
    pub fn clear(&mut self)
        ensures
            *final(self) == old(self).cleared(),
            final(self).wf(),
    {
        self.ts = None;
        self.te = None;
        self.po = None;
        self.ph = None;
        self.pl = None;
        self.vwap = Vwap::new();
        self.buy_volume = 0;
        self.sell_volume = 0;
        self.tick_count = 0;
    }

    /// Closing a candle changes nothing in it: it stays as its last tick
    /// left it.
    pub fn close(&mut self)
        ensures
            *final(self) == *old(self),
    {
    }
}

} // verus!
