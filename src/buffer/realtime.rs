//! Pre-allocated buffer for audio processing.
use vstd::prelude::*;

use crate::error::AudioEngineError;
use crate::markers::{HeapFree, NonBlocking, RealtimeSafe};

verus! {

/// Every element of `s` is a clone of `v`.
pub open spec fn all_cloned_from<T: Clone>(s: Seq<T>, v: T) -> bool {
    forall|i: int| 0 <= i < s.len() ==> cloned(v, #[trigger] s[i])
}

/// Every element of `s` is a clone of one value that `T::default` returns.
pub open spec fn all_default<T: Clone + Default>(s: Seq<T>) -> bool {
    exists|d: T| call_ensures(T::default, (), d) && all_cloned_from(s, d)
}

/// `v` is a clone of a value that `T::default` returns.
pub open spec fn is_default_clone<T: Clone + Default>(v: T) -> bool {
    exists|d: T| call_ensures(T::default, (), d) && cloned(d, v)
}

#[verifier::external_type_specification]
#[verifier::external_body]
#[verifier::reject_recursive_types(T)]
pub struct ExIterMut<'a, T: 'a>(core::slice::IterMut<'a, T>);

/// Relies on `<[T]>::iter_mut`: an iterator that can change the elements of
/// `s` but not how many there are.
#[verifier::external_body]
fn slice_iter_mut<'a, T>(s: &'a mut [T]) -> (r: core::slice::IterMut<'a, T>)
    ensures
        final(s)@.len() == old(s)@.len(),
{
    s.iter_mut()
}

/// A buffer whose storage is allocated once, with a valid prefix of
/// variable length below that fixed capacity.
#[derive(Clone)]
pub struct RealtimeBuffer<T> {
    data: Vec<T>,
    len: usize,
}

impl<T> View for RealtimeBuffer<T> {
    type V = Seq<T>;

    /// The valid elements.
    open spec fn view(&self) -> Seq<T> {
        self.full().take(self.spec_len() as int)
    }
}

impl<T> RealtimeBuffer<T> {
    /// The whole storage, valid prefix and unused capacity alike.
    pub closed spec fn full(&self) -> Seq<T> {
        self.data@
    }

    /// The length of the valid prefix.
    pub closed spec fn spec_len(&self) -> nat {
        self.len as nat
    }

    /// The fixed capacity.
    pub open spec fn spec_capacity(&self) -> nat {
        self.full().len()
    }

    /// The valid length never exceeds the capacity.
    pub open spec fn wf(&self) -> bool {
        self.spec_len() <= self.spec_capacity()
    }
}

impl<T: Clone + Default> RealtimeBuffer<T> {
    /// Creates an empty buffer of the given capacity, every slot holding
    /// the default value.
    pub fn new(capacity: usize) -> (r: RealtimeBuffer<T>)
        ensures
            r.wf(),
            r.spec_capacity() == capacity,
            r@.len() == 0,
            all_default(r.full()),
    {
        let d = T::default();
        let data = vec![d; capacity];
        proof {
            assert(all_cloned_from(data@, d));
        }
        RealtimeBuffer { data, len: 0 }
    }

    /// Creates a full buffer of the given capacity, every slot holding a
    /// clone of `value`.
    pub fn with_value(capacity: usize, value: T) -> (r: RealtimeBuffer<T>)
        ensures
            r.wf(),
            r.spec_capacity() == capacity,
            r@.len() == capacity,
            r@ == r.full(),
            all_cloned_from(r.full(), value),
    {
        let data = vec![value; capacity];
        let r = RealtimeBuffer { data, len: capacity };
        proof {
            assert(r.data@.take(capacity as int) =~= r.data@);
        }
        r
    }

    /// Creates a full buffer that owns the given storage.
    pub fn from_boxed_slice(data: Box<[T]>) -> (r: RealtimeBuffer<T>)
        ensures
            r.wf(),
            r.full() == data@,
            r@ == data@,
    {
        let data = data.into_vec();
        let len = data.len();
        let r = RealtimeBuffer { data, len };
        proof {
            assert(r.data@.take(len as int) =~= r.data@);
        }
        r
    }

    /// Overwrites every slot with the default value and makes the whole
    /// storage valid.
    pub fn fill_default(&mut self)
        ensures
            final(self).wf(),
            final(self).spec_capacity() == old(self).spec_capacity(),
            final(self)@ == final(self).full(),
            all_default(final(self).full()),
    {
        let d = T::default();
        self.fill(d);
        proof {
            assert(call_ensures(T::default, (), d));
        }
    }

    /// Overwrites every slot with a clone of `value` and makes the whole
    /// storage valid.
    pub fn fill(&mut self, value: T)
        ensures
            final(self).wf(),
            final(self).spec_capacity() == old(self).spec_capacity(),
            final(self)@ == final(self).full(),
            all_cloned_from(final(self).full(), value),
    {
        let n = self.data.len();
        let mut i: usize = 0;
        while i < n
            invariant
                n == self.data@.len(),
                i <= n,
                forall|j: int| 0 <= j < i ==> cloned(value, #[trigger] self.data@[j]),
            decreases n - i,
        {
            self.data[i] = value.clone();
            i += 1;
        }
        self.len = n;
        proof {
            assert(self.data@.take(n as int) =~= self.data@);
        }
    }

    /// Sets the valid length to `min(new_len, capacity)`. Growing fills the
    /// newly exposed slots with the default value; shrinking only moves the
    /// length.
    pub fn resize(&mut self, new_len: usize)
        requires
            old(self).wf(),
        ensures
            final(self).wf(),
            final(self).spec_capacity() == old(self).spec_capacity(),
            final(self)@.len() == if new_len < old(self).spec_capacity() {
                new_len as nat
            } else {
                old(self).spec_capacity()
            },
            forall|i: int|
                0 <= i < old(self)@.len() && i < final(self)@.len() ==> final(self)@[i]
                    == old(self)@[i],
            forall|i: int|
                old(self)@.len() <= i < final(self)@.len() ==> is_default_clone(
                    #[trigger] final(self)@[i],
                ),
            forall|i: int|
                final(self)@.len() <= i < final(self).spec_capacity() ==> final(self).full()[i]
                    == old(self).full()[i],
    {
        let cap = self.data.len();
        let target = if new_len < cap {
            new_len
        } else {
            cap
        };
        let start = self.len;
        if target > start {
            let d = T::default();
            let mut i: usize = start;
            while i < target
                invariant
                    start <= i <= target <= cap,
                    cap == self.data@.len(),
                    self.len == start,
                    call_ensures(T::default, (), d),
                    forall|j: int| 0 <= j < start ==> self.data@[j] == old(self).data@[j],
                    forall|j: int| i <= j < cap ==> self.data@[j] == old(self).data@[j],
                    forall|j: int| start <= j < i ==> cloned(d, #[trigger] self.data@[j]),
                decreases target - i,
            {
                self.data[i] = d.clone();
                i += 1;
            }
            proof {
                assert forall|k: int| start <= k < target implies is_default_clone(
                    #[trigger] self.data@.take(target as int)[k],
                ) by {
                    assert(self.data@.take(target as int)[k] == self.data@[k]);
                    assert(call_ensures(T::default, (), d) && cloned(d, self.data@[k]));
                }
            }
        }
        self.len = target;
    }

    /// Copies `src` into the front of the storage and makes exactly that
    /// prefix valid; fails when `src` is longer than the capacity.
    pub fn copy_from_slice(&mut self, src: &[T]) -> (r: Result<(), AudioEngineError>)
        requires
            old(self).wf(),
        ensures
            final(self).wf(),
            final(self).spec_capacity() == old(self).spec_capacity(),
            src@.len() > old(self).spec_capacity() <==> r is Err,
            r is Err ==> r == Err::<(), AudioEngineError>(
                AudioEngineError::BufferOverflow {
                    attempted: src@.len() as usize,
                    capacity: old(self).spec_capacity() as usize,
                },
            ) && final(self)@ == old(self)@ && final(self).full() == old(self).full(),
            r is Ok ==> {
                &&& final(self)@.len() == src@.len()
                &&& forall|i: int| 0 <= i < src@.len() ==> cloned(src@[i], #[trigger] final(self)@[i])
                &&& forall|i: int|
                    src@.len() <= i < final(self).spec_capacity() ==> final(self).full()[i]
                        == old(self).full()[i]
            },
    {
        let n = src.len();
        let cap = self.data.len();
        if n > cap {
            return Err(AudioEngineError::BufferOverflow { attempted: n, capacity: cap });
        }
        let mut i: usize = 0;
        while i < n
            invariant
                i <= n <= cap,
                cap == self.data@.len(),
                n == src@.len(),
                forall|j: int| 0 <= j < i ==> cloned(src@[j], #[trigger] self.data@[j]),
                forall|j: int| i <= j < cap ==> self.data@[j] == old(self).data@[j],
            decreases n - i,
        {
            self.data[i] = src[i].clone();
            i += 1;
        }
        self.len = n;
        Ok(())
    }
}

impl<T> RealtimeBuffer<T> {
    /// Sets the length to zero; the storage is kept.
    pub fn clear(&mut self)
        ensures
            final(self).wf(),
            final(self)@.len() == 0,
            final(self).full() == old(self).full(),
    {
        self.len = 0;
    }

    /// Returns the capacity.
    pub fn capacity(&self) -> (r: usize)
        ensures
            r == self.spec_capacity(),
    {
        self.data.len()
    }

    /// Returns the number of valid elements.
    pub fn len(&self) -> (r: usize)
        requires
            self.wf(),
        ensures
            r == self@.len(),
            r <= self.spec_capacity(),
            self@ == self.full().take(r as int),
    {
        self.len
    }

    /// Returns true when no element is valid.
    pub fn is_empty(&self) -> (r: bool)
        requires
            self.wf(),
        ensures
            r == (self@.len() == 0),
    {
        self.len() == 0
    }

    /// Returns true when the whole storage is valid.
    pub fn is_full(&self) -> (r: bool)
        requires
            self.wf(),
        ensures
            r == (self@.len() == self.spec_capacity()),
    {
        self.len() == self.data.len()
    }

    /// Returns the unused capacity.
    pub fn remaining(&self) -> (r: usize)
        requires
            self.wf(),
        ensures
            r == self.spec_capacity() - self@.len(),
    {
        self.data.len() - self.len()
    }

    /// Returns the valid elements.
    pub fn as_slice(&self) -> (r: &[T])
        requires
            self.wf(),
        ensures
            r@ == self@,
    {
        vstd::slice::slice_subrange(self.data.as_slice(), 0, self.len)
    }

    /// Returns the valid elements mutably. The buffer afterwards holds what
    /// the slice holds when the borrow ends, followed by its unused
    /// capacity; the valid length stays.
    pub fn as_mut_slice(&mut self) -> (r: &mut [T])
        requires
            old(self).wf(),
        ensures
            r@ == old(self)@,
            final(self).spec_len() == old(self).spec_len(),
            final(self).full() == final(r)@ + old(self).full().skip(old(self).spec_len() as int),
    {
        let len = self.len;
        let full = self.data.as_mut_slice();
        let (front, _back) = full.split_at_mut(len);
        front
    }

    /// Returns an iterator over the valid elements that can change them; the
    /// valid length and the capacity stay.
    pub fn iter_mut(&mut self) -> (r: core::slice::IterMut<'_, T>)
        requires
            old(self).wf(),
        ensures
            final(self).wf(),
            final(self).spec_len() == old(self).spec_len(),
            final(self).spec_capacity() == old(self).spec_capacity(),
            final(self).full().skip(old(self).spec_len() as int) == old(self).full().skip(
                old(self).spec_len() as int,
            ),
    {
        slice_iter_mut(self.as_mut_slice())
    }

    /// Returns the whole storage mutably, including unused capacity; the
    /// buffer afterwards holds what the slice holds when the borrow ends, and
    /// the valid length stays.
    pub fn as_full_mut_slice(&mut self) -> (r: &mut [T])
        ensures
            r@ == old(self).full(),
            final(self).spec_len() == old(self).spec_len(),
            final(self).full() == final(r)@,
    {
        self.data.as_mut_slice()
    }

    /// Returns the whole storage, including unused capacity.
    pub fn as_full_slice(&self) -> (r: &[T])
        ensures
            r@ == self.full(),
    {
        self.data.as_slice()
    }

    /// Replaces the element at `index` when it is within the valid prefix;
    /// returns whether it was.
    pub(crate) fn set(&mut self, index: usize, value: T) -> (r: bool)
        requires
            old(self).wf(),
        ensures
            final(self).wf(),
            r == (index < old(self)@.len()),
            final(self)@ == if r { old(self)@.update(index as int, value) } else { old(self)@ },
            final(self).spec_capacity() == old(self).spec_capacity(),
    {
        if index < self.len {
            self.data[index] = value;
            proof {
                assert(self.data@.take(self.len as int) =~= old(self).data@.take(
                    self.len as int,
                ).update(index as int, value));
            }
            true
        } else {
            false
        }
    }

    /// Returns the element at `index` if it is within the valid prefix.
    pub fn get(&self, index: usize) -> (r: Option<&T>)
        requires
            self.wf(),
        ensures
            index < self@.len() <==> r is Some,
            r is Some ==> *r->0 == self@[index as int],
    {
        if index < self.len {
            Some(&self.data[index])
        } else {
            None
        }
    }

    /// Returns the element at `index` mutably if it is within the valid prefix.
    pub fn get_mut(&mut self, index: usize) -> (r: Option<&mut T>)
        requires
            old(self).wf(),
        ensures
            index < old(self)@.len() <==> r is Some,
            r is Some ==> {
                &&& *r->0 == old(self)@[index as int]
                &&& final(self).wf()
                &&& final(self)@ == old(self)@.update(index as int, *final(r->0))
                &&& final(self).full() == old(self).full().update(index as int, *final(r->0))
            },
            r is None ==> *final(self) == *old(self),
    {
        if index < self.len {
            let r = &mut self.data[index];
            Some(r)
        } else {
            None
        }
    }

    /// Sets the valid length without touching the storage.
    pub fn set_len(&mut self, new_len: usize)
        requires
            new_len <= old(self).spec_capacity(),
        ensures
            final(self).wf(),
            final(self).full() == old(self).full(),
            final(self)@.len() == new_len,
    {
        self.len = new_len;
    }

    /// Returns an iterator over the valid elements.
    pub fn iter(&self) -> (r: core::slice::Iter<'_, T>)
        requires
            self.wf(),
    {
        self.as_slice().iter()
    }
}

impl<T: Send + 'static> RealtimeSafe for RealtimeBuffer<T> {}

impl<T> HeapFree for RealtimeBuffer<T> {}

impl<T> NonBlocking for RealtimeBuffer<T> {}

} // verus!
