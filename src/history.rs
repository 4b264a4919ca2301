//! Fixed-capacity, most-recent-first sample histories.
use std::collections::VecDeque;
use vstd::prelude::*;

verus! {

broadcast use vstd::std_specs::vecdeque::group_vec_dequeue_axioms;

/// What a push of `v` in front of `s` leaves when at most `limit` items may
/// stay: the newest item goes first and, past the limit, the oldest one leaves.
pub open spec fn pushed_within<T>(s: Seq<T>, v: T, limit: nat) -> Seq<T> {
    let p = seq![v] + s;
    if p.len() > limit {
        p.drop_last()
    } else {
        p
    }
}

/// The item that a push of `v` in front of `s` evicts, if any.
pub open spec fn evicted_by<T>(s: Seq<T>, v: T, limit: nat) -> Option<T> {
    let p = seq![v] + s;
    if p.len() > limit {
        Some(p.last())
    } else {
        None
    }
}

/// Puts `new_value` in front of `values`; when that makes `values` longer than
/// `limit`, takes the oldest item off the back and returns it.
pub fn push_within_limit<T>(values: &mut VecDeque<T>, new_value: T, limit: usize) -> (r: Option<T>)
    requires
        old(values)@.len() < usize::MAX,
    ensures
        final(values)@ == pushed_within(old(values)@, new_value, limit as nat),
        r == evicted_by(old(values)@, new_value, limit as nat),
{
    values.push_front(new_value);
    if values.len() > limit {
        values.pop_back()
    } else {
        None
    }
}


/// A fixed-capacity sequence of samples, most recent first. Once full, each
/// push evicts the oldest sample.
pub struct BoundedHistory<T> {
    items: VecDeque<T>,
    capacity: usize,
}

impl<T> View for BoundedHistory<T> {
    type V = Seq<T>;

    /// The retained samples, most recent first.
    closed spec fn view(&self) -> Seq<T> {
        self.items@
    }
}

impl<T> BoundedHistory<T> {
    /// The capacity fixed at construction.
    pub closed spec fn cap(&self) -> nat {
        self.capacity as nat
    }

    /// Never more samples than the capacity.
    pub closed spec fn wf(&self) -> bool {
        self.items@.len() <= self.capacity
    }

    /// An empty history that keeps at most `capacity` samples.
    pub fn new(capacity: usize) -> (r: Self)
        ensures
            r.wf(),
            r@ == Seq::<T>::empty(),
            r.cap() == capacity,
    {
        BoundedHistory { items: VecDeque::new(), capacity }
    }

    /// Records `value` as the most recent sample and returns the sample that
    /// had to leave to make room, if any.
    pub fn push(&mut self, value: T) -> (r: Option<T>)
        requires
            old(self).wf(),
        ensures
            final(self).wf(),
            final(self).cap() == old(self).cap(),
            final(self)@ == pushed_within(old(self)@, value, old(self).cap()),
            r == evicted_by(old(self)@, value, old(self).cap()),
    {
        if self.capacity == 0 {
            return Some(value);
        }
        let evicted = if self.items.len() == self.capacity {
            self.items.pop_back()
        } else {
            None
        };
        self.items.push_front(value);
        proof {
            let p = seq![value] + old(self).items@;
            if old(self).items@.len() == self.capacity {
                assert(self.items@ =~= p.drop_last());
                assert(p.last() == old(self).items@.last());
            } else {
                assert(self.items@ =~= p);
            }
        }
        evicted
    }

    /// The most recent sample, or nothing when the history is empty.
    pub fn most_recent(&self) -> (r: Option<&T>)
        ensures
            self@.len() == 0 ==> r is None,
            self@.len() > 0 ==> r == Some(&self@[0]),
    {
        if self.items.len() == 0 {
            None
        } else {
            Some(&self.items[0])
        }
    }

    /// The sample at position `i`, counted from the most recent one.
    pub fn get(&self, i: usize) -> (r: Option<&T>)
        ensures
            i >= self@.len() ==> r is None,
            i < self@.len() ==> r == Some(&self@[i as int]),
    {
        if i < self.items.len() {
            Some(&self.items[i])
        } else {
            None
        }
    }

    /// How many samples are retained.
    pub fn len(&self) -> (r: usize)
        ensures
            r == self@.len(),
    {
        self.items.len()
    }

    /// Whether no sample is retained.
    pub fn is_empty(&self) -> (r: bool)
        ensures
            r == (self@.len() == 0),
    {
        self.items.len() == 0
    }

    /// The capacity fixed at construction.
    pub fn capacity(&self) -> (r: usize)
        ensures
            r == self.cap(),
    {
        self.capacity
    }
}

/// The history that pushing the items of `s`, in order, into an empty history
/// of capacity `c` leaves.
pub open spec fn history_after<T>(c: nat, s: Seq<T>) -> Seq<T>
    decreases s.len(),
{
    if s.len() == 0 {
        Seq::empty()
    } else {
        pushed_within(history_after(c, s.drop_last()), s.last(), c)
    }
}

/// Whatever is pushed, a history of capacity `c` never holds more than `c`
/// samples, and it holds exactly the last `min(c, n)` of the `n` samples
/// pushed, most recent first.
pub proof fn lemma_history_keeps_last<T>(c: nat, s: Seq<T>)
    ensures
        history_after(c, s).len() <= c,
        history_after(c, s).len() == if s.len() < c { s.len() } else { c },
        forall|i: int|
            0 <= i < history_after(c, s).len() ==> #[trigger] history_after(c, s)[i] == s[s.len()
                - 1 - i],
    decreases s.len(),
{
    if s.len() > 0 {
        let t = s.drop_last();
        lemma_history_keeps_last(c, t);
        let h = history_after(c, t);
        let p = seq![s.last()] + h;
        assert forall|i: int| 0 < i < p.len() implies p[i] == s[s.len() - 1 - i] by {
            assert(p[i] == h[i - 1]);
            assert(t[t.len() - 1 - (i - 1)] == s[s.len() - 1 - i]);
        }
        assert(p[0] == s[s.len() - 1]);
    }
}

} // verus!
