//! The history of closed bars: one bounded queue for each kind of bar,
//! oldest first, in which a bar is recorded once however often it is
//! offered.

use vstd::prelude::*;
use std::collections::VecDeque;
use crate::bar::Bar;

verus! {

/// The queue after `bar` was offered to it. A bar with the identity of the
/// newest bar held changes nothing. Otherwise the oldest bar leaves where
/// the queue holds `capacity` bars or more, and `bar` joins as the newest.
pub open spec fn recorded(queue: Seq<Bar>, capacity: usize, bar: Bar) -> Seq<Bar> {
    if queue.len() > 0 && queue.last().id == bar.id {
        queue
    } else if queue.len() > 0 && queue.len() >= capacity {
        queue.drop_first().push(bar)
    } else {
        queue.push(bar)
    }
}

/// Offering a bar a second time changes nothing.
pub proof fn lemma_recorded_once(queue: Seq<Bar>, capacity: usize, bar: Bar)
    ensures
        recorded(recorded(queue, capacity, bar), capacity, bar) == recorded(queue, capacity, bar),
{
}

/// A queue within its capacity stays within it, a capacity of zero
/// counting as one.
pub proof fn lemma_recorded_bounded(queue: Seq<Bar>, capacity: usize, bar: Bar)
    requires
        queue.len() <= capacity || queue.len() <= 1,
    ensures
        recorded(queue, capacity, bar).len() <= capacity || recorded(queue, capacity, bar).len()
            <= 1,
{
}

/// Offers `bar` to a queue of at most `capacity` bars.
pub fn record_bar(queue: &mut VecDeque<Bar>, capacity: usize, bar: &Bar)
    ensures
        final(queue)@ == recorded(old(queue)@, capacity, *bar),
{
    let n = queue.len();
    if n > 0 {
        if queue[n - 1].id == bar.id {
            return ;
        }
        if n >= capacity {
            let _ = queue.pop_front();
        }
    }
    queue.push_back(*bar);
}

/// The closed bars of one market, by kind.
pub struct BarManager {
    pub tick_imbalance_bar_queue: VecDeque<Bar>,
    pub tick_imbalance_bar_max_capa: usize,
    pub volume_imbalance_bar_queue: VecDeque<Bar>,
    pub volume_imbalance_bar_max_capa: usize,
    pub dollar_imbalance_bar_queue: VecDeque<Bar>,
    pub dollar_imbalance_bar_max_capa: usize,
}

impl BarManager {
    /// Three empty queues of the same capacity.
    pub fn new(max_capacity: usize) -> (r: Self)
        ensures
            r.tick_imbalance_bar_queue@ == Seq::<Bar>::empty(),
            r.volume_imbalance_bar_queue@ == Seq::<Bar>::empty(),
            r.dollar_imbalance_bar_queue@ == Seq::<Bar>::empty(),
            r.tick_imbalance_bar_max_capa == max_capacity,
            r.volume_imbalance_bar_max_capa == max_capacity,
            r.dollar_imbalance_bar_max_capa == max_capacity,
    {
        BarManager {
            tick_imbalance_bar_queue: VecDeque::new(),
            tick_imbalance_bar_max_capa: max_capacity,
            volume_imbalance_bar_queue: VecDeque::new(),
            volume_imbalance_bar_max_capa: max_capacity,
            dollar_imbalance_bar_queue: VecDeque::new(),
            dollar_imbalance_bar_max_capa: max_capacity,
        }
    }

    /// Offers a closed tick imbalance bar.
    pub fn update_tick_imbalance_bar(&mut self, bar: &Bar)
        ensures
            final(self).tick_imbalance_bar_queue@ == recorded(
                old(self).tick_imbalance_bar_queue@,
                old(self).tick_imbalance_bar_max_capa,
                *bar,
            ),
            final(self).volume_imbalance_bar_queue == old(self).volume_imbalance_bar_queue,
            final(self).dollar_imbalance_bar_queue == old(self).dollar_imbalance_bar_queue,
            final(self).tick_imbalance_bar_max_capa == old(self).tick_imbalance_bar_max_capa,
            final(self).volume_imbalance_bar_max_capa == old(self).volume_imbalance_bar_max_capa,
            final(self).dollar_imbalance_bar_max_capa == old(self).dollar_imbalance_bar_max_capa,
    {
        record_bar(&mut self.tick_imbalance_bar_queue, self.tick_imbalance_bar_max_capa, bar);
    }

    /// Offers a closed volume imbalance bar.
    pub fn update_volume_imbalance_bar(&mut self, bar: &Bar)
        ensures
            final(self).volume_imbalance_bar_queue@ == recorded(
                old(self).volume_imbalance_bar_queue@,
                old(self).volume_imbalance_bar_max_capa,
                *bar,
            ),
            final(self).tick_imbalance_bar_queue == old(self).tick_imbalance_bar_queue,
            final(self).dollar_imbalance_bar_queue == old(self).dollar_imbalance_bar_queue,
            final(self).tick_imbalance_bar_max_capa == old(self).tick_imbalance_bar_max_capa,
            final(self).volume_imbalance_bar_max_capa == old(self).volume_imbalance_bar_max_capa,
            final(self).dollar_imbalance_bar_max_capa == old(self).dollar_imbalance_bar_max_capa,
    {
        record_bar(&mut self.volume_imbalance_bar_queue, self.volume_imbalance_bar_max_capa, bar);
    }

    /// Offers a closed dollar imbalance bar.
    pub fn update_dollar_imbalance_bar(&mut self, bar: &Bar)
        ensures
            final(self).dollar_imbalance_bar_queue@ == recorded(
                old(self).dollar_imbalance_bar_queue@,
                old(self).dollar_imbalance_bar_max_capa,
                *bar,
            ),
            final(self).tick_imbalance_bar_queue == old(self).tick_imbalance_bar_queue,
            final(self).volume_imbalance_bar_queue == old(self).volume_imbalance_bar_queue,
            final(self).tick_imbalance_bar_max_capa == old(self).tick_imbalance_bar_max_capa,
            final(self).volume_imbalance_bar_max_capa == old(self).volume_imbalance_bar_max_capa,
            final(self).dollar_imbalance_bar_max_capa == old(self).dollar_imbalance_bar_max_capa,
    {
        record_bar(&mut self.dollar_imbalance_bar_queue, self.dollar_imbalance_bar_max_capa, bar);
    }
}

} // verus!
