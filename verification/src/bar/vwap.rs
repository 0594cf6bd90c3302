//! Volume-weighted average price of the ticks of one bar.

use vstd::prelude::*;
use vstd::arithmetic::div_mod::*;

verus! {

/// `a + b`, held at `u128::MAX` where the sum would pass it.
pub open spec fn capped_sum(a: int, b: int) -> u128 {
    if a + b > u128::MAX {
        u128::MAX
    } else {
        (a + b) as u128
    }
}

/// The two sums a volume-weighted average is made of. `cumul_volume` counts
/// units of 10^-8; `cumul_price_volume` sums price times size and so counts
/// units of 10^-16. Both stop at `u128::MAX`.
#[derive(Clone, Copy, Debug, PartialEq, Eq, Structural)]
pub struct Vwap {
    pub cumul_price_volume: u128,
    pub cumul_volume: u128,
}

impl Vwap {
    /// No price-volume without volume.
    pub open spec fn wf(self) -> bool {
        self.cumul_volume == 0 ==> self.cumul_price_volume == 0
    }

    /// The sums after one more tick.
    pub open spec fn updated(self, price: u64, volume: u64) -> Vwap {
        Vwap {
            cumul_price_volume: capped_sum(self.cumul_price_volume as int, price * volume),
            cumul_volume: capped_sum(self.cumul_volume as int, volume as int),
        }
    }

    /// The average price in units of 10^-8, rounded down; none before any
    /// volume was seen.
    pub open spec fn value(self) -> Option<u128> {
        if self.cumul_volume == 0 {
            None
        } else {
            Some((self.cumul_price_volume / self.cumul_volume) as u128)
        }
    }

    /// Both sums at zero.
    pub fn new() -> (r: Self)
        ensures
            r.cumul_price_volume == 0,
            r.cumul_volume == 0,
            r.wf(),
    {
        Vwap { cumul_price_volume: 0, cumul_volume: 0 }
    }

    /// Adds one tick to both sums.
    pub fn update(&mut self, price: u64, volume: u64)
        ensures
            *final(self) == old(self).updated(price, volume),
            old(self).wf() ==> final(self).wf(),
    {
        assert(0 <= price * volume <= u128::MAX && (volume == 0 ==> price * volume == 0))
            by (nonlinear_arith)
            requires
                0 <= price <= u64::MAX,
                0 <= volume <= u64::MAX,
        ;
        let pv: u128 = (price as u128) * (volume as u128);
        self.cumul_price_volume = self.cumul_price_volume.saturating_add(pv);
        self.cumul_volume = self.cumul_volume.saturating_add(volume as u128);
    }

    /// The average price so far. Times the volume it gives back the summed
    /// price-volume, short by less than one unit of volume.
    pub fn vwap(&self) -> (r: Option<u128>)
        ensures
            r == self.value(),
            r matches Some(v) ==> v * self.cumul_volume <= self.cumul_price_volume < v
                * self.cumul_volume + self.cumul_volume,
    {
        if self.cumul_volume == 0 {
            return None;
        }
        proof {
            lemma_average_times_volume(self.cumul_price_volume as int, self.cumul_volume as int);
        }
        Some(self.cumul_price_volume / self.cumul_volume)
    }
}

/// A quotient rounded down, times its divisor, falls short of the dividend
/// by less than the divisor.
pub proof fn lemma_average_times_volume(pv: int, v: int)
    requires
        pv >= 0,
        v > 0,
    ensures
        (pv / v) * v <= pv < (pv / v) * v + v,
        0 <= pv / v <= pv,
{
    lemma_fundamental_div_mod(pv, v);
    lemma_mod_bound(pv, v);
    lemma_div_pos_is_pos(pv, v);
    assert((pv / v) * v == v * (pv / v)) by (nonlinear_arith);
    assert(pv / v <= pv) by (nonlinear_arith)
        requires
            v * (pv / v) <= pv,
            v >= 1,
            pv / v >= 0,
    ;
}

} // verus!
