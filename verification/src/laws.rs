//! Laws relating the queue's operations, stated over the sequences that the
//! operations' contracts speak of.

use vstd::prelude::*;

verus! {

/// The contents returned by taking the front element `k` times in a row:
/// each step yields the head and continues on the remainder, exactly as
/// [`crate::SliceQueue::pop`] does.
pub open spec fn front_pops<T>(s: Seq<T>, k: int) -> Seq<T>
    decreases k,
{
    if k <= 0 {
        Seq::empty()
    } else {
        seq![s[0]] + front_pops(s.skip(1), k - 1)
    }
}

/// FIFO order: popping the front `k` times returns the first `k` stored
/// elements in exactly the order they were pushed.
pub proof fn lemma_fifo_order<T>(s: Seq<T>, k: int)
    requires
        0 <= k <= s.len(),
    ensures
        front_pops(s, k) == s.take(k),
    decreases k,
{
    if k > 0 {
        lemma_fifo_order(s.skip(1), k - 1);
    }
    assert(front_pops(s, k) =~= s.take(k));
}

/// Round trip: appending a sequence `s` at the back of a queue holding `q`
/// and then popping `s.len()` elements from the front returns the queue to
/// its prior length — and, from an empty queue, the popped batch is exactly
/// the appended sequence.
pub proof fn lemma_round_trip<T>(q: Seq<T>, s: Seq<T>)
    ensures
        (q + s).skip(s.len() as int).len() == q.len(),
        q.len() == 0 ==> (q + s).take(s.len() as int) == s,
{
    if q.len() == 0 {
        assert((q + s).take(s.len() as int) =~= s);
    }
}

/// Committing a partial in-place fill: when the producer hands back all `n`
/// reserved slots and reports `k <= n` of them filled, exactly the first
/// `k` produced elements are appended — the queue grows by exactly `k`, its
/// prior contents stay in place, and none of the `n - k` unfilled
/// placeholders is observable.
pub proof fn lemma_partial_fill_commit<T>(q: Seq<T>, produced: Seq<T>, n: int, k: int)
    requires
        0 <= k <= n,
        produced.len() == n,
    ensures
        crate::kept_count(k, n, produced.len() as int) == k,
        (q + produced.take(k)).len() == q.len() + k,
        (q + produced.take(k)).take(q.len() as int) == q,
        (q + produced.take(k)).skip(q.len() as int) == produced.take(k),
{
    assert((q + produced.take(k)).take(q.len() as int) =~= q);
    assert((q + produced.take(k)).skip(q.len() as int) =~= produced.take(k));
}

/// Reading through a bound specification that selects the front `k`
/// elements yields exactly the contents that draining those `k` elements
/// from the front would return, without mutating anything: the normalized
/// subrange equals the drained batch.
pub proof fn lemma_range_read_matches_drain<T>(s: Seq<T>, bounds: crate::Bounds, k: int)
    requires
        bounds.end_translatable(),
        bounds.norm_start() == 0,
        bounds.norm_end(s.len() as int) == k,
        0 <= k <= s.len(),
    ensures
        s.subrange(bounds.norm_start(), bounds.norm_end(s.len() as int)) == s.take(k),
        s.subrange(bounds.norm_start(), bounds.norm_end(s.len() as int)) == front_pops(s, k),
{
    lemma_fifo_order(s, k);
}

} // verus!
