//! What holds of every step of a bar engine, stated over the step
//! functions themselves.

use vstd::prelude::*;
use vstd::arithmetic::div_mod::{lemma_div_is_ordered, lemma_div_pos_is_pos};
use crate::arith::{clip, lemma_mul_fixed_fraction, lemma_mul_fixed_nonneg, mul_fixed_spec};
use crate::bar::vwap::lemma_average_times_volume;
use crate::bar::{
    active_step,
    all_nonneg,
    clamp_ceiling,
    clamp_floor,
    engine_wf,
    genesis_step,
    lemma_clamp_window,
    pushed,
    Bar,
    THRESHOLD_COUNT,
};
use crate::data::market::MarketData;
use crate::decay::{
    decay_argument,
    decay_factor_spec,
    lemma_decay_never_grows,
    lemma_exp_neg_bounds,
};
use crate::fixed::{magnitude, SCALE};

verus! {

/// The decay factor lies between zero and one.
pub proof fn lemma_decay_factor_bounds(t: u64)
    ensures
        0 <= decay_factor_spec(t) <= SCALE,
{
    lemma_exp_neg_bounds(decay_argument(t));
}

/// Within a bar the live threshold never rises: with the base threshold
/// that the last closure set, the live threshold after more ticks is at
/// most the live threshold after fewer.
pub proof fn lemma_live_threshold_never_rises(base: i128, t1: u64, t2: u64)
    requires
        base >= 0,
        t1 <= t2,
    ensures
        mul_fixed_spec(base as int, decay_factor_spec(t2)) <= mul_fixed_spec(
            base as int,
            decay_factor_spec(t1),
        ) <= base,
{
    let f1 = decay_factor_spec(t1);
    let f2 = decay_factor_spec(t2);
    lemma_decay_never_grows(t1, t2);
    lemma_decay_factor_bounds(t1);
    lemma_decay_factor_bounds(t2);
    lemma_mul_fixed_fraction(base as int, f1);
    lemma_mul_fixed_fraction(base as int, f2);
    assert(0 <= base * f2 <= base * f1) by (nonlinear_arith)
        requires
            base >= 0,
            0 <= f2 <= f1,
    ;
    lemma_div_is_ordered(base * f2, base * f1, SCALE as int);
    lemma_div_pos_is_pos(base * f2, SCALE as int);
}

/// A bar that has just taken a tick is open and sound: its start is no
/// later than its end, its open and close lie between low and high, it has
/// counted a tick, and its average price answers to its sums.
pub proof fn lemma_ticked_bar_is_sound(bar: Bar, mkt: MarketData, incr: i128, cvd_incr: i128)
    requires
        bar.wf(),
    ensures
        bar.ticked(mkt, incr, cvd_incr).closed_bar_holds(),
        bar.ticked(mkt, incr, cvd_incr).candle_opened,
        bar.ticked(mkt, incr, cvd_incr).imb_thres == bar.imb_thres,
{
    let t = bar.ticked(mkt, incr, cvd_incr);
    let v = t.candle.vwap;
    assert(0 <= mkt.price * mkt.quantity && (mkt.quantity == 0 ==> mkt.price * mkt.quantity == 0))
        by (nonlinear_arith)
        requires
            0 <= mkt.price,
            0 <= mkt.quantity,
    ;
    if v.cumul_volume > 0 {
        lemma_average_times_volume(v.cumul_price_volume as int, v.cumul_volume as int);
    }
}

/// Closing a bar keeps the engine sound: the tick estimate and the
/// threshold that the estimates call for are not negative.
pub proof fn lemma_estimates_are_sound(bar: Bar)
    requires
        bar.wf(),
        bar.candle.tick_count >= 1,
    ensures
        bar.with_new_estimates().ewma_t_current >= 0,
        crate::bar::nominal_threshold(
            bar.with_new_estimates().ewma_imb_current,
            bar.with_new_estimates().ewma_t_current,
        ) >= 0,
{
    let e = bar.with_new_estimates();
    assert(bar.candle.tick_count * SCALE >= 0) by (nonlinear_arith)
        requires
            bar.candle.tick_count >= 0,
            SCALE >= 0,
    ;
    assert(bar.candle.tick_count * SCALE <= i128::MAX) by (nonlinear_arith)
        requires
            0 <= bar.candle.tick_count <= u64::MAX,
            SCALE == 100_000_000,
    ;
    lemma_mul_fixed_nonneg(bar.ticks_fixed() as int, bar.ewma_factor as int);
    lemma_mul_fixed_nonneg(bar.ewma_t_current as int, SCALE - bar.ewma_factor);
    lemma_mul_fixed_nonneg(
        clip(magnitude(e.ewma_imb_current as int) as int) as int,
        e.ewma_t_current as int,
    );
}

/// A history within its bounds stays within them when a threshold that is
/// not negative joins it.
pub proof fn lemma_pushed_is_sound(h: Seq<i128>, x: i128)
    requires
        h.len() <= THRESHOLD_COUNT,
        all_nonneg(h),
        x >= 0,
    ensures
        pushed(h, x).len() <= THRESHOLD_COUNT,
        pushed(h, x).len() > 0,
        all_nonneg(pushed(h, x)),
{
}

/// Every bar that closes after the genesis bar has an imbalance at least
/// as large as the threshold it carries.
pub proof fn lemma_closed_bar_reached_threshold(
    bar: Bar,
    history: Seq<i128>,
    mkt: MarketData,
    incr: i128,
    cvd_incr: i128,
)
    requires
        engine_wf(bar, history),
    ensures
        active_step(bar, history, mkt, incr, cvd_incr).completed matches Some(b) ==> magnitude(
            b.imb as int,
        ) >= b.imb_thres,
{
}

/// The genesis bar closes only once it has collected for its period with
/// an imbalance that is not zero.
pub proof fn lemma_genesis_bar_was_due(
    bar: Bar,
    history: Seq<i128>,
    mkt: MarketData,
    incr: i128,
    cvd_incr: i128,
)
    requires
        engine_wf(bar, history),
    ensures
        genesis_step(bar, history, mkt, incr, cvd_incr).completed matches Some(b) ==> {
            &&& b.candle.te->0 - b.candle.ts->0 >= b.genesis_collect_period
            &&& b.imb != 0
        },
{
}

/// Every bar that closes, genesis or not, starts no later than it ends and
/// has its open and its close between its low and its high.
pub proof fn lemma_closed_bar_is_ordered(
    bar: Bar,
    history: Seq<i128>,
    mkt: MarketData,
    incr: i128,
    cvd_incr: i128,
)
    requires
        engine_wf(bar, history),
    ensures
        genesis_step(bar, history, mkt, incr, cvd_incr).completed matches Some(b) ==> {
            &&& b.candle.ts->0 <= b.candle.te->0
            &&& b.candle.pl->0 <= b.candle.po->0 <= b.candle.ph->0
            &&& b.candle.pl->0 <= b.candle.pc->0 <= b.candle.ph->0
        },
        active_step(bar, history, mkt, incr, cvd_incr).completed matches Some(b) ==> {
            &&& b.candle.ts->0 <= b.candle.te->0
            &&& b.candle.pl->0 <= b.candle.po->0 <= b.candle.ph->0
            &&& b.candle.pl->0 <= b.candle.pc->0 <= b.candle.ph->0
        },
{
    lemma_ticked_bar_is_sound(bar, mkt, incr, cvd_incr);
}

/// In every bar that closes, the average price times the volume falls
/// short of the summed price-volume by less than one unit of volume; a bar
/// without volume has no price-volume.
pub proof fn lemma_closed_bar_average_price(
    bar: Bar,
    history: Seq<i128>,
    mkt: MarketData,
    incr: i128,
    cvd_incr: i128,
)
    requires
        engine_wf(bar, history),
    ensures
        genesis_step(bar, history, mkt, incr, cvd_incr).completed matches Some(b)
            ==> b.vwap_holds(),
        active_step(bar, history, mkt, incr, cvd_incr).completed matches Some(b)
            ==> b.vwap_holds(),
{
    lemma_ticked_bar_is_sound(bar, mkt, incr, cvd_incr);
}

/// When a bar closes after the genesis bar, the threshold set for the next
/// bar lies between half the smallest and one and a half times the largest
/// threshold of the history, which then holds the threshold just crossed.
pub proof fn lemma_next_threshold_within_clamp(
    bar: Bar,
    history: Seq<i128>,
    mkt: MarketData,
    incr: i128,
    cvd_incr: i128,
)
    requires
        engine_wf(bar, history),
    ensures
        active_step(bar, history, mkt, incr, cvd_incr).completed is Some ==> {
            let step = active_step(bar, history, mkt, incr, cvd_incr);
            &&& step.history.len() > 0
            &&& clamp_floor(step.history) <= step.bar.imb_thres <= clamp_ceiling(step.history)
        },
{
    lemma_ticked_bar_is_sound(bar, mkt, incr, cvd_incr);
    let ticked = bar.ticked(mkt, incr, cvd_incr);
    lemma_decay_factor_bounds(ticked.candle.tick_count);
    lemma_mul_fixed_fraction(
        ticked.imb_thres_base as int,
        decay_factor_spec(ticked.candle.tick_count),
    );
    let t = ticked.decayed();
    if t.crossed() {
        lemma_pushed_is_sound(history, t.imb_thres);
        lemma_clamp_window(pushed(history, t.imb_thres));
    }
}

/// Every step leaves the engine sound, and while a bar stays open after
/// the genesis bar its live threshold is at most its base threshold.
pub proof fn lemma_step_keeps_engine_sound(
    bar: Bar,
    history: Seq<i128>,
    mkt: MarketData,
    incr: i128,
    cvd_incr: i128,
)
    requires
        engine_wf(bar, history),
    ensures
        engine_wf(
            genesis_step(bar, history, mkt, incr, cvd_incr).bar,
            genesis_step(bar, history, mkt, incr, cvd_incr).history,
        ),
        engine_wf(
            active_step(bar, history, mkt, incr, cvd_incr).bar,
            active_step(bar, history, mkt, incr, cvd_incr).history,
        ),
        active_step(bar, history, mkt, incr, cvd_incr).completed is None ==> active_step(
            bar,
            history,
            mkt,
            incr,
            cvd_incr,
        ).bar.imb_thres <= bar.imb_thres_base,
{
    lemma_ticked_bar_is_sound(bar, mkt, incr, cvd_incr);
    let ticked = bar.ticked(mkt, incr, cvd_incr);
    lemma_estimates_are_sound(ticked);
    if ticked.genesis_due() {
        let e = ticked.with_new_estimates();
        lemma_mul_fixed_nonneg(
            clip(magnitude(ticked.mean_imbalance() as int) as int) as int,
            e.ewma_t_current as int,
        );
        lemma_pushed_is_sound(history, ticked.genesis_threshold());
    }
    lemma_decay_factor_bounds(ticked.candle.tick_count);
    lemma_mul_fixed_fraction(
        ticked.imb_thres_base as int,
        decay_factor_spec(ticked.candle.tick_count),
    );
    let t = ticked.decayed();
    lemma_estimates_are_sound(t);
    if t.crossed() {
        lemma_pushed_is_sound(history, t.imb_thres);
        lemma_clamp_window(pushed(history, t.imb_thres));
    }
}

} // verus!
