//! Fixed-capacity FIFO history used for sparkline data and "latest N items"
//! lists.
//!
//! The capacity is fixed at construction; a push beyond capacity evicts the
//! oldest element first, so the history always holds the most recent items,
//! oldest first.

use vstd::prelude::*;

verus! {

/// One push on the model of a bounded FIFO history of the given capacity:
/// the item is appended, after the oldest item is dropped if the history is
/// already full.
pub open spec fn fifo_push<T>(s: Seq<T>, capacity: nat, item: T) -> Seq<T> {
    if s.len() < capacity {
        s.push(item)
    } else {
        s.drop_first().push(item)
    }
}

/// The model of a bounded FIFO history after pushing all of `items`, in
/// order, onto an empty history of the given capacity.
pub open spec fn fifo_run<T>(capacity: nat, items: Seq<T>) -> Seq<T>
    decreases items.len(),
{
    if items.len() == 0 {
        Seq::empty()
    } else {
        fifo_push(fifo_run(capacity, items.drop_last()), capacity, items.last())
    }
}

/// After any sequence of pushes onto an empty history, at most `capacity`
/// items are retained, and they are exactly the last `capacity` items
/// pushed, in push order.
pub proof fn lemma_fifo_run_retains_last<T>(capacity: nat, items: Seq<T>)
    requires
        capacity >= 1,
    ensures
        fifo_run(capacity, items).len() <= capacity,
        fifo_run(capacity, items) == items.skip(
            if items.len() <= capacity {
                0
            } else {
                items.len() - capacity
            } as int,
        ),
    decreases items.len(),
{
    if items.len() == 0 {
        assert(items.skip(0) =~= Seq::<T>::empty());
    } else {
        let prefix = items.drop_last();
        let last = items.last();
        lemma_fifo_run_retains_last(capacity, prefix);
        let run_prefix = fifo_run(capacity, prefix);
        if run_prefix.len() < capacity {
            assert(run_prefix =~= prefix);
            assert(prefix.push(last) =~= items);
            assert(items.skip(0) =~= items);
        } else {
            let p0 = (prefix.len() - capacity) as int;
            assert(run_prefix.drop_first().push(last) =~= items.skip(p0 + 1));
        }
    }
}

/// Ordered sequence of the most recent items, with a capacity fixed at
/// construction. The view is the retained sequence, oldest first.
#[derive(Clone, Debug)]
pub struct BoundedHistory<T> {
    items: Vec<T>,
    capacity: usize,
}

impl<T> View for BoundedHistory<T> {
    type V = Seq<T>;

    closed spec fn view(&self) -> Seq<T> {
        self.items@
    }
}

impl<T> BoundedHistory<T> {
    /// The capacity fixed at construction.
    pub closed spec fn spec_capacity(&self) -> nat {
        self.capacity as nat
    }

    /// The invariant of a history: it never holds more than its capacity,
    /// and the capacity is at least one.
    pub open spec fn well_formed(&self) -> bool {
        &&& self@.len() <= self.spec_capacity()
        &&& self.spec_capacity() >= 1
    }

    /// An empty history with the given capacity.
    pub fn new(capacity: usize) -> (r: Self)
        requires
            capacity >= 1,
        ensures
            r@ == Seq::<T>::empty(),
            r.spec_capacity() == capacity,
            r.well_formed(),
    {
        BoundedHistory { items: Vec::new(), capacity }
    }

    /// The capacity fixed at construction.
    pub fn capacity(&self) -> (r: usize)
        ensures
            r == self.spec_capacity(),
    {
        self.capacity
    }

    /// How many items are currently retained.
    pub fn len(&self) -> (r: usize)
        ensures
            r == self@.len(),
    {
        self.items.len()
    }

    /// Appends an item; if the history is full, the oldest item is dropped
    /// first.
    pub fn push(&mut self, item: T)
        requires
            old(self).well_formed(),
        ensures
            final(self).well_formed(),
            final(self).spec_capacity() == old(self).spec_capacity(),
            final(self)@ == fifo_push(old(self)@, old(self).spec_capacity(), item),
    {
        if self.items.len() == self.capacity {
            self.items.remove(0);
            proof {
                assert(self.items@ =~= old(self)@.drop_first());
            }
        }
        self.items.push(item);
    }

    /// Read-only view of the retained items in insertion order, oldest
    /// first.
    pub fn as_slice(&self) -> (r: &[T])
        ensures
            r@ == self@,
    {
        self.items.as_slice()
    }
}

impl<T: Copy> BoundedHistory<T> {
    /// A copy of the retained items in insertion order, oldest first.
    pub fn to_vec(&self) -> (r: Vec<T>)
        ensures
            r@ == self@,
    {
        let mut out: Vec<T> = Vec::new();
        let mut i: usize = 0;
        while i < self.items.len()
            invariant
                i <= self.items.len(),
                out@ == self.items@.take(i as int),
            decreases self.items.len() - i,
        {
            out.push(self.items[i]);
            i += 1;
            proof {
                assert(out@ =~= self.items@.take(i as int));
            }
        }
        proof {
            assert(self.items@.take(self.items@.len() as int) =~= self.items@);
        }
        out
    }
}

} // verus!
