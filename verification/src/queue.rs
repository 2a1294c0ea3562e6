//! The queue itself: buffer core, eviction engine, in-place push protocol,
//! and the indexing surface built on the range normalizer.

use vstd::prelude::*;

use crate::bounds::Bounds;
use crate::bounds::EndBound;
use crate::bounds::StartBound;
use crate::policy::should_shrink;
use crate::storage::vec_capacity;
use crate::storage::vec_shrink_to_fit;
use vstd::slice::slice_subrange;

verus! {

/// How many of the `n` slots reserved by the in-place push protocol are
/// committed when the producer reports `k` slots filled and hands back
/// `have` staged elements: never more than reported, reserved, or staged.
pub open spec fn kept_count(k: int, n: int, have: int) -> int {
    let reported = if k <= n {
        k
    } else {
        n
    };
    if have <= reported {
        have
    } else {
        reported
    }
}

/// Error returned by a push-family operation whose post-mutation length
/// would exceed the configured limit; the queue is left unchanged.
#[derive(Clone, Copy, Debug, PartialEq, Eq, Structural)]
pub struct LimitExceeded;

/// A bounded FIFO queue over one contiguous growable buffer.
///
/// The logical front is always at physical offset 0: pushes append at the
/// tail, pops remove from the front and compact the survivors back to
/// offset 0. Every push-family operation enforces the configured limit and
/// every eviction consults the opportunistic shrink policy.
#[derive(Clone, Debug)]
pub struct SliceQueue<T> {
    backing: Vec<T>,
    limit: usize,
}

impl<T> View for SliceQueue<T> {
    type V = Seq<T>;

    closed spec fn view(&self) -> Seq<T> {
        self.backing@
    }
}

impl<T> SliceQueue<T> {
    /// The maximum element count enforced by the push-family operations.
    pub closed spec fn spec_limit(&self) -> usize {
        self.limit
    }

    /// Creates an empty queue with an effectively unlimited limit.
    pub fn new() -> (r: Self)
        ensures
            r@ == Seq::<T>::empty(),
            r.spec_limit() == usize::MAX,
    {
        SliceQueue { backing: Vec::new(), limit: usize::MAX }
    }

    /// Creates an empty queue whose backing preallocates room for `n`
    /// elements.
    pub fn with_capacity(n: usize) -> (r: Self)
        ensures
            r@ == Seq::<T>::empty(),
            r.spec_limit() == usize::MAX,
    {
        SliceQueue { backing: Vec::with_capacity(n), limit: usize::MAX }
    }

    /// Creates an empty queue with a preset `limit`.
    pub fn with_limit(limit: usize) -> (r: Self)
        ensures
            r@ == Seq::<T>::empty(),
            r.spec_limit() == limit,
    {
        SliceQueue { backing: Vec::new(), limit }
    }

    /// The amount of elements stored.
    pub fn len(&self) -> (r: usize)
        ensures
            r == self@.len(),
    {
        self.backing.len()
    }

    /// Whether no elements are stored.
    pub fn is_empty(&self) -> (r: bool)
        ensures
            r <==> self@.len() == 0,
    {
        self.backing.is_empty()
    }

    /// The allocated capacity, which is never below the stored length.
    pub fn capacity(&self) -> (r: usize)
        ensures
            r >= self@.len(),
    {
        vec_capacity(&self.backing)
    }

    /// Reserves room for at least `additional_element_count` further pushes
    /// without reallocating; neither contents nor limit change.
    pub fn reserve(&mut self, additional_element_count: usize)
        ensures
            final(self)@ == old(self)@,
            final(self).spec_limit() == old(self).spec_limit(),
    {
        self.backing.reserve(additional_element_count)
    }

    /// Releases unused backing capacity when the shrink policy asks for it:
    /// more than [`crate::SHRINK_LEN_FLOOR`] elements stored, and either at
    /// most half of the allocation in use or the allocation larger than the
    /// limit. Contents and limit never change.
    pub fn shrink_opportunistic(&mut self)
        ensures
            final(self)@ == old(self)@,
            final(self).spec_limit() == old(self).spec_limit(),
    {
        let len = self.backing.len();
        let cap = vec_capacity(&self.backing);
        if should_shrink(len, cap, self.limit) {
            vec_shrink_to_fit(&mut self.backing);
        }
    }

    /// Unconditionally shrinks the allocated capacity as far as the
    /// allocator allows, independent of the shrink heuristic. Contents and
    /// limit never change.
    pub fn shrink_to_fit(&mut self)
        ensures
            final(self)@ == old(self)@,
            final(self).spec_limit() == old(self).spec_limit(),
    {
        vec_shrink_to_fit(&mut self.backing)
    }

    /// The current limit.
    pub fn limit(&self) -> (r: usize)
        ensures
            r == self.spec_limit(),
    {
        self.limit
    }

    /// Sets a new limit. The limit is enforced only by the push-family
    /// calls: a length already above the new limit is left as it is.
    pub fn set_limit(&mut self, limit: usize)
        ensures
            final(self)@ == old(self)@,
            final(self).spec_limit() == limit,
    {
        self.limit = limit
    }

    /// The amount of space remaining until the limit is reached, saturating
    /// at 0 when the stored length already exceeds the limit.
    pub fn remaining(&self) -> (r: usize)
        ensures
            self@.len() <= self.spec_limit() ==> r == self.spec_limit() - self@.len(),
            self@.len() > self.spec_limit() ==> r == 0,
    {
        let len = self.backing.len();
        if len <= self.limit {
            self.limit - len
        } else {
            0
        }
    }

    /// Removes and returns the front element, or returns nothing on an
    /// empty queue. The survivors move one position toward the front, and
    /// the shrink policy is consulted.
    pub fn pop(&mut self) -> (r: Option<T>)
        ensures
            final(self).spec_limit() == old(self).spec_limit(),
            old(self)@.len() == 0 ==> r is None && final(self)@ == old(self)@,
            old(self)@.len() > 0 ==> r == Some(old(self)@[0]) && final(self)@ == old(self)@.skip(1),
    {
        if self.backing.len() == 0 {
            None
        } else {
            let element = self.backing.remove(0);
            proof {
                assert(self@ =~= old(self)@.skip(1));
            }
            self.shrink_opportunistic();
            Some(element)
        }
    }

    /// Removes the first `n` elements as an owned batch, compacting the
    /// survivors to the front. Returns nothing, leaving the queue unchanged,
    /// exactly when fewer than `n` elements are stored: this is the one
    /// drain that is safe to probe. The shrink policy is consulted on
    /// success.
    pub fn pop_n(&mut self, n: usize) -> (r: Option<Vec<T>>)
        ensures
            final(self).spec_limit() == old(self).spec_limit(),
            n > old(self)@.len() ==> r is None && final(self)@ == old(self)@,
            n <= old(self)@.len() ==> match r {
                Some(batch) => batch@ == old(self)@.take(n as int) && final(self)@ == old(
                    self,
                )@.skip(n as int),
                None => false,
            },
    {
        if self.backing.len() < n {
            return None;
        }
        let mut batch = self.backing.split_off(n);
        core::mem::swap(&mut self.backing, &mut batch);
        proof {
            assert(batch@ =~= old(self)@.take(n as int));
            assert(self@ =~= old(self)@.skip(n as int));
        }
        self.shrink_opportunistic();
        Some(batch)
    }

    /// Consumes the first `dst.len()` stored elements and moves them into
    /// `dst`, front to back, overwriting what `dst` held; the survivors are
    /// compacted to the front and the shrink policy is consulted. The queue
    /// must hold at least `dst.len()` elements.
    pub fn pop_into(&mut self, dst: &mut [T])
        requires
            old(dst)@.len() <= old(self)@.len(),
        ensures
            final(self).spec_limit() == old(self).spec_limit(),
            final(dst)@.len() == old(dst)@.len(),
            final(dst)@ == old(self)@.take(old(dst)@.len() as int),
            final(self)@ == old(self)@.skip(old(dst)@.len() as int),
    {
        let to_move = dst.len();
        let mut i: usize = 0;
        while i < to_move
            invariant
                i <= to_move,
                to_move == old(dst)@.len() <= old(self)@.len(),
                dst@.len() == to_move,
                self@ == old(self)@.skip(i as int),
                self.spec_limit() == old(self).spec_limit(),
                forall|j: int| 0 <= j < i ==> dst@[j] == old(self)@[j],
            decreases to_move - i,
        {
            let replaced = self.backing.remove(0);
            dst[i] = replaced;
            proof {
                assert(old(self)@.skip(i as int).remove(0) =~= old(self)@.skip(i + 1));
            }
            i = i + 1;
        }
        proof {
            assert(dst@ =~= old(self)@.take(to_move as int));
        }
        self.shrink_opportunistic();
    }

    /// Discards the first `n` stored elements without returning them,
    /// compacting the survivors to the front; the shrink policy is
    /// consulted. The queue must hold at least `n` elements.
    pub fn discard_n(&mut self, n: usize)
        requires
            n <= old(self)@.len(),
        ensures
            final(self).spec_limit() == old(self).spec_limit(),
            final(self)@ == old(self)@.skip(n as int),
    {
        let survivors = self.backing.split_off(n);
        self.backing = survivors;
        proof {
            assert(self@ =~= old(self)@.skip(n as int));
        }
        self.shrink_opportunistic();
    }

    /// Appends one element at the tail. Fails, leaving the queue unchanged,
    /// exactly when one more element would exceed the limit; on success the
    /// stored length stays within the limit.
    pub fn push(&mut self, element: T) -> (r: Result<(), LimitExceeded>)
        ensures
            final(self).spec_limit() == old(self).spec_limit(),
            old(self)@.len() + 1 <= old(self).spec_limit() ==> r is Ok && final(self)@ == old(
                self,
            )@.push(element),
            old(self)@.len() + 1 > old(self).spec_limit() ==> r is Err && final(self)@ == old(self)@,
            r is Ok ==> final(self)@.len() <= final(self).spec_limit(),
    {
        if self.backing.len() < self.limit {
            self.backing.push(element);
            Ok(())
        } else {
            Err(LimitExceeded)
        }
    }

    /// Appends every element of an owned vector at the tail, in order.
    /// Fails, leaving the queue unchanged (the vector is consumed either
    /// way), exactly when the combined length would exceed the limit; on
    /// success the stored length stays within the limit.
    pub fn push_n(&mut self, n: Vec<T>) -> (r: Result<(), LimitExceeded>)
        ensures
            final(self).spec_limit() == old(self).spec_limit(),
            old(self)@.len() + n@.len() <= old(self).spec_limit() ==> r is Ok && final(self)@
                == old(self)@ + n@,
            old(self)@.len() + n@.len() > old(self).spec_limit() ==> r is Err && final(self)@
                == old(self)@,
            r is Ok ==> final(self)@.len() <= final(self).spec_limit(),
    {
        let mut incoming = n;
        if incoming.len() <= self.limit && self.backing.len() <= self.limit - incoming.len() {
            self.backing.append(&mut incoming);
            Ok(())
        } else {
            Err(LimitExceeded)
        }
    }

    /// Clones and appends every element of a borrowed slice at the tail, in
    /// order: each appended element is a clone of its source. Fails,
    /// leaving the queue unchanged, exactly when the combined length would
    /// exceed the limit; on success the stored length stays within the
    /// limit.
    pub fn push_from(&mut self, src: &[T]) -> (r: Result<(), LimitExceeded>) where T: Clone
        ensures
            final(self).spec_limit() == old(self).spec_limit(),
            old(self)@.len() + src@.len() > old(self).spec_limit() ==> r is Err && final(self)@
                == old(self)@,
            old(self)@.len() + src@.len() <= old(self).spec_limit() ==> r is Ok && {
                &&& final(self)@.len() == old(self)@.len() + src@.len()
                &&& final(self)@.take(old(self)@.len() as int) == old(self)@
                &&& forall|i: int|
                    0 <= i < src@.len() ==> cloned::<T>(
                        src@[i],
                        #[trigger] final(self)@[old(self)@.len() + i],
                    )
            },
            r is Ok ==> final(self)@.len() <= final(self).spec_limit(),
    {
        if src.len() <= self.limit && self.backing.len() <= self.limit - src.len() {
            self.backing.extend_from_slice(src);
            proof {
                assert(self@.take(old(self)@.len() as int) =~= old(self)@);
            }
            Ok(())
        } else {
            Err(LimitExceeded)
        }
    }

    /// The two-phase in-place push: reserves `n` placeholder slots, hands
    /// the producer `push_fn` a staging buffer of exactly those `n`
    /// default-initialized slots, and commits only the prefix the producer
    /// reports as filled — `kept_count` many elements, which for a producer
    /// that returns `n` staged elements and reports `k <= n` filled is
    /// exactly `k`. On a producer error nothing is committed, the queue is
    /// unchanged and the error is handed back. Unfilled placeholders are
    /// dropped and never observable. The length must stay within the limit
    /// up front, so the committed queue does too; the shrink policy is
    /// consulted afterwards.
    pub fn push_in_place<E, F: Fn(Vec<T>) -> Result<(Vec<T>, usize), E>>(
        &mut self,
        n: usize,
        push_fn: F,
    ) -> (r: Result<(), E>) where T: Default
        requires
            old(self)@.len() + n <= old(self).spec_limit(),
            forall|staging: Vec<T>| staging@.len() == n ==> #[trigger] call_requires(
                push_fn,
                (staging,),
            ),
        ensures
            final(self).spec_limit() == old(self).spec_limit(),
            final(self)@.len() <= old(self)@.len() + n,
            final(self)@.len() <= final(self).spec_limit(),
            final(self)@.take(old(self)@.len() as int) == old(self)@,
            r is Err ==> final(self)@ == old(self)@,
            r is Err ==> exists|staging: Vec<T>, e: E|
                staging@.len() == n && r == Result::<(), E>::Err(e) && #[trigger] call_ensures(
                    push_fn,
                    (staging,),
                    Result::<(Vec<T>, usize), E>::Err(e),
                ),
            r is Ok ==> exists|staging: Vec<T>, produced: Vec<T>, k: usize|
                {
                    &&& staging@.len() == n
                    &&& #[trigger] call_ensures(
                        push_fn,
                        (staging,),
                        Result::<(Vec<T>, usize), E>::Ok((produced, k)),
                    )
                    &&& final(self)@ == old(self)@ + produced@.take(
                        kept_count(k as int, n as int, produced@.len() as int),
                    )
                },
    {
        let mut staging: Vec<T> = Vec::new();
        let mut i: usize = 0;
        while i < n
            invariant
                i <= n,
                staging@.len() == i,
            decreases n - i,
        {
            staging.push(T::default());
            i = i + 1;
        }
        let ghost reserved = staging;
        let outcome = push_fn(staging);
        let ghost produced_outcome = outcome;
        match outcome {
            Ok((produced, k)) => {
                let ghost staged = produced;
                let mut committed = produced;
                let mut kept: usize = if k < n {
                    k
                } else {
                    n
                };
                if committed.len() < kept {
                    kept = committed.len();
                }
                proof {
                    assert(kept == kept_count(k as int, n as int, staged@.len() as int));
                }
                committed.truncate(kept);
                self.backing.append(&mut committed);
                proof {
                    assert(self@.take(old(self)@.len() as int) =~= old(self)@);
                    assert(call_ensures(
                        push_fn,
                        (reserved,),
                        Result::<(Vec<T>, usize), E>::Ok((staged, k)),
                    ));
                }
                self.shrink_opportunistic();
                Ok(())
            },
            Err(e) => {
                self.shrink_opportunistic();
                proof {
                    assert(self@.take(old(self)@.len() as int) =~= old(self)@);
                    assert(reserved@.len() == n);
                    assert(produced_outcome == Result::<(Vec<T>, usize), E>::Err(e));
                    assert(call_ensures(
                        push_fn,
                        (reserved,),
                        Result::<(Vec<T>, usize), E>::Err(e),
                    ));
                }
                Err(e)
            },
        }
    }

    /// Translates a bound specification into the one canonical half-open
    /// range against the current backing length. An inclusive end bound
    /// translates by subtracting one, so it must not sit at the domain's
    /// minimum value.
    pub fn range_from_bounds(&self, bounds: Bounds) -> (r: (usize, usize))
        requires
            bounds.end_translatable(),
        ensures
            r.0 == bounds.norm_start(),
            r.1 == bounds.norm_end(self@.len() as int),
    {
        let start: usize = match bounds.start {
            StartBound::Included(s) => s,
            StartBound::Unbounded => 0,
        };
        let end: usize = match bounds.end {
            EndBound::Included(e) => e - 1,
            EndBound::Excluded(e) => e,
            EndBound::Unbounded => self.backing.len(),
        };
        (start, end)
    }

    /// Read access to the element at position `i`, without removing it.
    pub fn get(&self, i: usize) -> (r: &T)
        requires
            i < self@.len(),
        ensures
            *r == self@[i as int],
    {
        &self.backing[i]
    }

    /// Replaces the element at position `i`, without changing the length.
    pub fn set(&mut self, i: usize, value: T)
        requires
            i < old(self)@.len(),
        ensures
            final(self)@ == old(self)@.update(i as int, value),
            final(self).spec_limit() == old(self).spec_limit(),
    {
        self.backing[i] = value;
    }

    /// Read access to the extent selected by a bound specification, without
    /// removing elements: the returned slice holds exactly the stored
    /// contents of the normalized half-open range.
    pub fn get_range(&self, bounds: Bounds) -> (r: &[T])
        requires
            bounds.end_translatable(),
            bounds.in_range(self@.len() as int),
        ensures
            r@ == self@.subrange(
                bounds.norm_start(),
                bounds.norm_end(self@.len() as int),
            ),
    {
        let (start, end) = self.range_from_bounds(bounds);
        slice_subrange(self.backing.as_slice(), start, end)
    }
}

impl<T> Default for SliceQueue<T> {
    /// An empty queue with an effectively unlimited limit.
    fn default() -> (r: Self)
        ensures
            r@ == Seq::<T>::empty(),
            r.spec_limit() == usize::MAX,
    {
        SliceQueue::new()
    }
}

impl<T> From<Vec<T>> for SliceQueue<T> {
    /// Adopts an already-owned vector as the initial backing, in order,
    /// with an effectively unlimited limit.
    fn from(vec: Vec<T>) -> (r: Self)
        ensures
            r@ == vec@,
            r.spec_limit() == usize::MAX,
    {
        SliceQueue { backing: vec, limit: usize::MAX }
    }
}

impl<T> vstd::std_specs::convert::FromSpecImpl<Vec<T>> for SliceQueue<T> {
    open spec fn obeys_from_spec() -> bool {
        true
    }

    closed spec fn from_spec(vec: Vec<T>) -> Self {
        SliceQueue { backing: vec, limit: usize::MAX }
    }
}

} // verus!
