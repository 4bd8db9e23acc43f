//! A bounded FIFO that keeps the most recent samples.
use vstd::prelude::*;

use std::collections::VecDeque;

verus! {

/// Relies on `VecDeque::as_slices`: its two slices hold, in order, the
/// contents of the deque, so the first one is a prefix of them.
#[verifier::external_body]
fn leading_segment<T>(d: &VecDeque<T>) -> (r: &[T])
    ensures
        r@.len() <= d@.len(),
        r@ == d@.subrange(0, r@.len() as int),
{
    d.as_slices().0
}

/// Holds at most `capacity` values; pushing into a full buffer evicts the
/// oldest one.
pub struct CircularBuffer<T> {
    buffer: VecDeque<T>,
    capacity: usize,
}

impl<T> View for CircularBuffer<T> {
    /// The contents, oldest first.
    type V = Seq<T>;

    closed spec fn view(&self) -> Seq<T> {
        self.buffer@
    }
}

impl<T> CircularBuffer<T> {
    /// The most values the buffer holds at once.
    pub closed spec fn spec_capacity(&self) -> nat {
        self.capacity as nat
    }

    /// An empty buffer for at most `capacity` values.
    pub fn new(capacity: usize) -> (r: Self)
        ensures
            r@ == Seq::<T>::empty(),
            r.spec_capacity() == capacity,
    {
        CircularBuffer { buffer: VecDeque::with_capacity(capacity), capacity }
    }

    /// Appends `value` as the newest entry; when the buffer already holds
    /// `capacity` values, the oldest one is dropped first. With capacity zero
    /// nothing is kept.
    pub fn push(&mut self, value: T)
        ensures
            final(self).spec_capacity() == old(self).spec_capacity(),
            old(self)@.len() < old(self).spec_capacity() ==> final(self)@ == old(self)@.push(value),
            old(self)@.len() >= old(self).spec_capacity() ==> final(self)@ == old(self)@.push(
                value,
            ).drop_first(),
            old(self)@.len() <= old(self).spec_capacity() ==> final(self)@.len()
                <= final(self).spec_capacity(),
    {
        self.buffer.push_back(value);
        if self.buffer.len() > self.capacity {
            self.buffer.pop_front();
        }
        assert(self.buffer@ =~= if old(self)@.len() < self.capacity {
            old(self)@.push(value)
        } else {
            old(self)@.push(value).drop_first()
        });
    }

    /// A leading run of the contents, oldest first. The storage may wrap
    /// around, so this need not be all of them.
    pub fn as_slice(&self) -> (r: &[T])
        ensures
            r@.len() <= self@.len(),
            r@ == self@.subrange(0, r@.len() as int),
    {
        leading_segment(&self.buffer)
    }

    /// Whether the buffer holds `capacity` values.
    pub fn is_full(&self) -> (r: bool)
        ensures
            r == (self@.len() == self.spec_capacity()),
    {
        self.buffer.len() == self.capacity
    }

    /// The oldest value, if any.
    pub fn front(&self) -> (r: Option<&T>)
        ensures
            self@.len() == 0 ==> r is None,
            self@.len() > 0 ==> r == Some(&self@[0]),
    {
        if self.buffer.len() == 0 {
            None
        } else {
            Some(&self.buffer[0])
        }
    }
}

} // verus!
