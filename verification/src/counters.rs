//! Counters of the messages received, one for each message type.

use std::collections::HashMap;
use vstd::prelude::*;

verus! {

broadcast use vstd::std_specs::hash::group_hash_axioms;

/// The number of messages of type `mtype` counted in `counts`: zero for a
/// type that was never counted.
pub open spec fn rx_count(counts: Map<i32, u64>, mtype: i32) -> u64 {
    if counts.contains_key(mtype) {
        counts[mtype]
    } else {
        0
    }
}

/// `counts` after one more message of type `mtype`. A counter never goes
/// down: one that has reached the largest number it can hold stays there.
pub open spec fn rx_counted(counts: Map<i32, u64>, mtype: i32) -> Map<i32, u64> {
    let count = rx_count(counts, mtype);
    counts.insert(
        mtype,
        if count == u64::MAX {
            count
        } else {
            (count + 1) as u64
        },
    )
}

/// One more message of type `mtype` raises the counter of that type, and of
/// no other.
pub proof fn lemma_counted_once(counts: Map<i32, u64>, mtype: i32, other: i32)
    ensures
        rx_count(counts, mtype) < u64::MAX ==> rx_count(rx_counted(counts, mtype), mtype)
            == rx_count(counts, mtype) + 1,
        rx_count(rx_counted(counts, mtype), mtype) >= rx_count(counts, mtype),
        other != mtype ==> rx_count(rx_counted(counts, mtype), other) == rx_count(counts, other),
{
}

/// Counters of the messages received.
pub struct RxCounters {
    counts: HashMap<i32, u64>,
}

impl View for RxCounters {
    type V = Map<i32, u64>;

    closed spec fn view(&self) -> Map<i32, u64> {
        self.counts@
    }
}

impl RxCounters {
    /// Counters that have counted nothing.
    pub fn new() -> (counters: RxCounters)
        ensures
            counters@ == Map::<i32, u64>::empty(),
    {
        RxCounters { counts: HashMap::new() }
    }

    /// The number of messages of type `mtype` counted so far.
    pub fn count(&self, mtype: i32) -> (count: u64)
        ensures
            count == rx_count(self@, mtype),
    {
        match self.counts.get(&mtype) {
            Some(count) => *count,
            None => 0,
        }
    }

    /// Counts one more message of type `mtype`.
    pub fn increment(&mut self, mtype: i32)
        ensures
            final(self)@ == rx_counted(old(self)@, mtype),
    {
        let count = self.count(mtype);
        let raised: u64 = if count == u64::MAX {
            count
        } else {
            count + 1
        };
        self.counts.insert(mtype, raised);
    }
}

} // verus!
