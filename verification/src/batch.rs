//! Batching for the time-series writer: records are gathered and handed
//! out a full batch at a time, to be written in one statement.

use vstd::prelude::*;

verus! {

/// Number of records written in one statement.
pub const BATCH_SIZE: usize = 100;

/// Records waiting to be written, oldest first.
pub struct Batch<T> {
    pub buffer: Vec<T>,
}

impl<T> Batch<T> {
    /// Nothing waiting.
    pub fn new() -> (r: Self)
        ensures
            r.buffer@ == Seq::<T>::empty(),
    {
        Batch { buffer: Vec::new() }
    }

    /// Adds a record. Where that makes `BATCH_SIZE` records or more, all of
    /// them are handed out, oldest first, and the buffer starts again
    /// empty; otherwise the record waits.
    pub fn push(&mut self, record: T) -> (full: Option<Vec<T>>)
        ensures
            old(self).buffer@.len() + 1 >= BATCH_SIZE ==> {
                &&& full matches Some(batch) && batch@ == old(self).buffer@.push(record)
                &&& final(self).buffer@ == Seq::<T>::empty()
            },
            old(self).buffer@.len() + 1 < BATCH_SIZE ==> {
                &&& full is None
                &&& final(self).buffer@ == old(self).buffer@.push(record)
            },
    {
        self.buffer.push(record);
        if self.buffer.len() >= BATCH_SIZE {
            let mut batch: Vec<T> = Vec::new();
            std::mem::swap(&mut batch, &mut self.buffer);
            Some(batch)
        } else {
            None
        }
    }
}

} // verus!
