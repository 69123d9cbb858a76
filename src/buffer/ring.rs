//! Lock-free single-producer single-consumer ring buffer.
//!
//! The queue itself is `rtrb`'s. Its two ends live on two threads, so what
//! one end sees of the queue can change at any moment through the other:
//! the contracts here speak of what each end did itself, which each end
//! records in a ghost log (the elements it has pushed, or popped).
use core::marker::PhantomData;
use rtrb::{Consumer, Producer};
use vstd::prelude::*;

use crate::error::AudioEngineError;
use crate::markers::{NonBlocking, RealtimeSafe};

verus! {

#[verifier::external_type_specification]
#[verifier::external_body]
#[verifier::reject_recursive_types(T)]
pub struct ExProducer<T>(Producer<T>);

#[verifier::external_type_specification]
#[verifier::external_body]
#[verifier::reject_recursive_types(T)]
pub struct ExConsumer<T>(Consumer<T>);

/// Relies on `rtrb::RingBuffer::new`: allocates room for `capacity`
/// elements (through `Vec::with_capacity`, which panics when that exceeds
/// `isize::MAX` bytes) and returns the two ends of one queue. Positions in
/// the queue run up to `2 * capacity`, which the bound on `capacity` keeps
/// within `usize`, so that pushing and popping never overflow.
#[verifier::external_body]
fn queue_new<T>(capacity: usize) -> (Producer<T>, Consumer<T>)
    requires
        capacity * vstd::layout::size_of::<T>() <= isize::MAX,
        capacity <= isize::MAX,
{
    rtrb::RingBuffer::new(capacity)
}

/// Relies on `rtrb::Producer::push`: either the value enters the queue, or
/// the queue is full and the value is handed back. Every producer here comes
/// from `queue_new`, whose bound on the capacity keeps the position
/// arithmetic of `push` from overflowing.
#[verifier::external_body]
fn producer_push<T>(p: &mut Producer<T>, value: T) -> (r: Option<T>)
    ensures
        r is Some ==> r->0 == value,
{
    match p.push(value) {
        Ok(()) => None,
        Err(rtrb::PushError::Full(v)) => Some(v),
    }
}

/// Relies on `rtrb::Producer::slots`: free slots at this moment.
#[verifier::external_body]
fn producer_slots<T>(p: &Producer<T>) -> usize {
    p.slots()
}

/// Relies on `rtrb::Producer::is_full`.
#[verifier::external_body]
fn producer_is_full<T>(p: &Producer<T>) -> bool {
    p.is_full()
}

/// Relies on `rtrb::Consumer::pop`: the oldest element, or nothing when the
/// queue is empty.
#[verifier::external_body]
fn consumer_pop<T>(c: &mut Consumer<T>) -> Option<T> {
    c.pop().ok()
}

/// Relies on `rtrb::Consumer::peek`: the oldest element, left in place.
#[verifier::external_body]
fn consumer_peek<T>(c: &Consumer<T>) -> Option<&T> {
    c.peek().ok()
}

/// Relies on `rtrb::Consumer::slots`: queued elements at this moment.
#[verifier::external_body]
fn consumer_slots<T>(c: &Consumer<T>) -> usize {
    c.slots()
}

/// Relies on `rtrb::Consumer::is_empty`.
#[verifier::external_body]
fn consumer_is_empty<T>(c: &Consumer<T>) -> bool {
    c.is_empty()
}

/// A fixed-capacity queue split into exactly one writer and one reader.
pub struct RingBuffer<T> {
    capacity: usize,
    _marker: PhantomData<T>,
}

impl<T> RingBuffer<T> {
    /// Creates a queue with room for `capacity` elements and returns its
    /// two ends, neither of which has moved an element yet.
    pub fn new(capacity: usize) -> (r: (RingBufferWriter<T>, RingBufferReader<T>))
        requires
            capacity * vstd::layout::size_of::<T>() <= isize::MAX,
            capacity <= isize::MAX,
        ensures
            r.0.pushed() == Seq::<T>::empty(),
            r.1.popped() == Seq::<T>::empty(),
    {
        let (producer, consumer) = queue_new(capacity);
        (
            RingBufferWriter { inner: producer, log: Ghost(Seq::empty()) },
            RingBufferReader { inner: consumer, log: Ghost(Seq::empty()) },
        )
    }
}

/// Writer end of a ring buffer, held by the producing thread.
#[verifier::reject_recursive_types(T)]
pub struct RingBufferWriter<T> {
    inner: Producer<T>,
    log: Ghost<Seq<T>>,
}

impl<T> RingBufferWriter<T> {
    /// Every element this end has pushed, oldest first.
    pub closed spec fn pushed(&self) -> Seq<T> {
        self.log@
    }

    /// Returns the number of slots free for writing at this moment.
    pub fn slots(&self) -> usize {
        producer_slots(&self.inner)
    }

    /// Returns true if no slot is free at this moment.
    pub fn is_full(&self) -> bool {
        producer_is_full(&self.inner)
    }

    /// Pushes one element, or reports a full queue.
    pub fn push(&mut self, value: T) -> (r: Result<(), AudioEngineError>)
        ensures
            r is Ok ==> final(self).pushed() == old(self).pushed().push(value),
            r is Err ==> r == Err::<(), AudioEngineError>(
                AudioEngineError::RingBufferFull { count: 1 },
            ) && final(self).pushed() == old(self).pushed(),
    {
        match producer_push(&mut self.inner, value) {
            None => {
                proof {
                    self.log@ = self.log@.push(value);
                }
                Ok(())
            },
            Some(_) => Err(AudioEngineError::RingBufferFull { count: 1 }),
        }
    }

    /// Pushes the longest prefix of `slice` that fits and returns its
    /// length; stops at the first element that finds the queue full.
    pub fn push_slice(&mut self, slice: &[T]) -> (r: usize)
        where
            T: Copy,
        ensures
            r <= slice@.len(),
            final(self).pushed() == old(self).pushed() + slice@.take(r as int),
    {
        let mut count: usize = 0;
        while count < slice.len()
            invariant
                count <= slice@.len(),
                self.log@ == old(self).log@ + slice@.take(count as int),
            decreases slice@.len() - count,
        {
            let item = slice[count];
            match producer_push(&mut self.inner, item) {
                None => {
                    proof {
                        assert(slice@.take(count as int + 1) =~= slice@.take(count as int).push(
                            item,
                        ));
                        self.log@ = self.log@.push(item);
                    }
                    count += 1;
                },
                Some(_) => {
                    break ;
                },
            }
        }
        count
    }
}

impl<T: Send + 'static> RealtimeSafe for RingBufferWriter<T> {}

impl<T> NonBlocking for RingBufferWriter<T> {}

/// Reader end of a ring buffer, held by the consuming thread.
#[verifier::reject_recursive_types(T)]
pub struct RingBufferReader<T> {
    inner: Consumer<T>,
    log: Ghost<Seq<T>>,
}

impl<T> RingBufferReader<T> {
    /// Every element this end has taken out, oldest first.
    pub closed spec fn popped(&self) -> Seq<T> {
        self.log@
    }

    /// Returns the number of elements available for reading at this moment.
    pub fn slots(&self) -> usize {
        consumer_slots(&self.inner)
    }

    /// Returns true if no element is available at this moment.
    pub fn is_empty(&self) -> bool {
        consumer_is_empty(&self.inner)
    }

    /// Pops the oldest element, or reports an empty queue.
    pub fn pop(&mut self) -> (r: Result<T, AudioEngineError>)
        ensures
            r is Ok ==> final(self).popped() == old(self).popped().push(r->Ok_0),
            r is Err ==> r == Err::<T, AudioEngineError>(
                AudioEngineError::RingBufferEmpty { count: 1 },
            ) && final(self).popped() == old(self).popped(),
    {
        match consumer_pop(&mut self.inner) {
            Some(v) => {
                proof {
                    self.log@ = self.log@.push(v);
                }
                Ok(v)
            },
            None => Err(AudioEngineError::RingBufferEmpty { count: 1 }),
        }
    }

    /// Pops up to `dest.len()` elements into the front of `dest`, in order,
    /// and returns how many; the rest of `dest` is left as it was.
    pub fn pop_slice(&mut self, dest: &mut [T]) -> (r: usize)
        where
            T: Copy,
        ensures
            r <= old(dest)@.len(),
            final(dest)@.len() == old(dest)@.len(),
            final(self).popped() == old(self).popped() + final(dest)@.take(r as int),
            final(dest)@.skip(r as int) == old(dest)@.skip(r as int),
    {
        let n = dest.len();
        let mut count: usize = 0;
        while count < n
            invariant
                n == dest@.len(),
                n == old(dest)@.len(),
                count <= n,
                self.log@ == old(self).log@ + dest@.take(count as int),
                dest@.skip(count as int) == old(dest)@.skip(count as int),
            decreases n - count,
        {
            match consumer_pop(&mut self.inner) {
                Some(v) => {
                    let ghost before = dest@;
                    dest[count] = v;
                    proof {
                        assert(dest@.take(count as int + 1) =~= before.take(count as int).push(v));
                        assert(dest@.skip(count as int + 1) =~= before.skip(count as int + 1));
                        assert(before.skip(count as int + 1) =~= old(dest)@.skip(count as int + 1))
                            by {
                            assert(before.skip(count as int + 1) =~= before.skip(
                                count as int,
                            ).skip(1));
                            assert(old(dest)@.skip(count as int + 1) =~= old(dest)@.skip(
                                count as int,
                            ).skip(1));
                        }
                        self.log@ = self.log@.push(v);
                    }
                    count += 1;
                },
                None => {
                    break ;
                },
            }
        }
        count
    }

    /// Returns the oldest element without removing it.
    pub fn peek(&self) -> Option<&T> {
        consumer_peek(&self.inner)
    }

    /// Drops up to `count` queued elements and returns how many went.
    pub fn discard(&mut self, count: usize) -> (r: usize)
        ensures
            r <= count,
            final(self).popped().len() == old(self).popped().len() + r,
            final(self).popped().take(old(self).popped().len() as int) == old(self).popped(),
    {
        let mut discarded: usize = 0;
        proof {
            assert(self.log@.take(self.log@.len() as int) =~= self.log@);
        }
        while discarded < count
            invariant
                discarded <= count,
                self.log@.len() == old(self).log@.len() + discarded,
                self.log@.take(old(self).log@.len() as int) == old(self).log@,
            decreases count - discarded,
        {
            match consumer_pop(&mut self.inner) {
                Some(v) => {
                    proof {
                        let prev = self.log@;
                        self.log@ = self.log@.push(v);
                        assert(self.log@.take(old(self).log@.len() as int) =~= prev.take(
                            old(self).log@.len() as int,
                        ));
                    }
                    discarded += 1;
                },
                None => {
                    break ;
                },
            }
        }
        discarded
    }
}

impl<T: Send + 'static> RealtimeSafe for RingBufferReader<T> {}

impl<T> NonBlocking for RingBufferReader<T> {}

} // verus!
