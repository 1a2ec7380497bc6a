//! A fixed-capacity first-in, first-out record of recent values.

use std::collections::VecDeque;
use vstd::prelude::*;

verus! {

/// What a full record holds after `value` arrives: the oldest entry leaves and
/// the new one goes to the back. A record of capacity zero stays empty.
pub open spec fn pushed<T>(record: Seq<T>, value: T) -> Seq<T> {
    if record.len() == 0 {
        record
    } else {
        record.drop_first().push(value)
    }
}

/// What a record holds after the `values` have arrived one by one, first to
/// last.
pub open spec fn pushed_all<T>(record: Seq<T>, values: Seq<T>) -> Seq<T>
    decreases values.len(),
{
    if values.len() == 0 {
        record
    } else {
        pushed(pushed_all(record, values.drop_last()), values.last())
    }
}

/// The most recent values of a series, oldest first. It is full from the
/// start and keeps its length for good.
pub struct FrequencyHistory<T> {
    entries: VecDeque<T>,
}

impl<T> View for FrequencyHistory<T> {
    type V = Seq<T>;

    closed spec fn view(&self) -> Seq<T> {
        self.entries@
    }
}

impl<T: Copy> FrequencyHistory<T> {
    /// A record of `capacity` entries, each of them `fill`.
    pub fn new(capacity: usize, fill: T) -> (history: Self)
        ensures
            history@ == Seq::new(capacity as nat, |i: int| fill),
    {
        let mut entries: VecDeque<T> = VecDeque::new();
        let mut n: usize = 0;
        while n < capacity
            invariant
                n <= capacity,
                entries@ == Seq::new(n as nat, |i: int| fill),
            decreases capacity - n,
        {
            entries.push_back(fill);
            n += 1;
            assert(entries@ =~= Seq::new(n as nat, |i: int| fill));
        }
        FrequencyHistory { entries }
    }

    /// The number of entries, which never changes.
    pub fn len(&self) -> (n: usize)
        ensures
            n == self@.len(),
    {
        self.entries.len()
    }

    /// Records `value` as the newest entry and drops the oldest.
    pub fn push(&mut self, value: T)
        ensures
            final(self)@ == pushed(old(self)@, value),
            final(self)@.len() == old(self)@.len(),
    {
        let oldest = self.entries.pop_front();
        if oldest.is_some() {
            self.entries.push_back(value);
        }
    }

    /// The entries, oldest first.
    pub fn values(&self) -> (values: Vec<T>)
        ensures
            values@ == self@,
    {
        let mut values: Vec<T> = Vec::new();
        let mut i: usize = 0;
        while i < self.entries.len()
            invariant
                i <= self.entries@.len(),
                values@ == self.entries@.take(i as int),
            decreases self.entries@.len() - i,
        {
            values.push(self.entries[i]);
            i += 1;
            assert(values@ =~= self.entries@.take(i as int));
        }
        assert(self.entries@.take(i as int) =~= self.entries@);
        values
    }
}

/// However many values arrive, the record keeps its length, and what it holds
/// is the tail of the old entries followed by the arrivals: an old entry
/// leaves before any younger one, and after as many arrivals as the record is
/// long only arrivals are left.
pub proof fn history_is_first_in_first_out<T>(record: Seq<T>, values: Seq<T>)
    ensures
        pushed_all(record, values).len() == record.len(),
        record.len() > 0 ==> pushed_all(record, values) == (record + values).skip(
            values.len() as int,
        ),
        values.len() >= record.len() > 0 ==> pushed_all(record, values) == values.skip(
            values.len() - record.len(),
        ),
    decreases values.len(),
{
    if values.len() > 0 {
        let earlier = values.drop_last();
        history_is_first_in_first_out(record, earlier);
        if record.len() > 0 {
            assert(pushed_all(record, values) =~= (record + values).skip(values.len() as int));
        }
    } else {
        assert((record + values).skip(0) =~= record);
    }
    if values.len() >= record.len() && record.len() > 0 {
        assert((record + values).skip(values.len() as int) =~= values.skip(
            values.len() - record.len(),
        ));
    }
}

} // verus!
