//! Bounded, insertion-ordered history buffers.
//!
//! A `HistoryBuffer` holds at most `capacity` entries, oldest first; pushing
//! past capacity evicts the oldest entry. The model of one push is
//! `fifo_push`, and `fifo_push_all` folds it over a sequence of inserts;
//! `lemma_fifo_window` states the sliding-window law: after enough inserts,
//! exactly the most recent `capacity` entries remain, in insertion order.
use vstd::prelude::*;
use std::collections::VecDeque;

verus! {

/// The model of one bounded-FIFO insertion: append `v`, then drop the
/// oldest entries until at most `cap` remain.
pub open spec fn fifo_push<T>(s: Seq<T>, v: T, cap: nat) -> Seq<T> {
    let grown = s.push(v);
    if grown.len() <= cap {
        grown
    } else {
        grown.skip(grown.len() - cap)
    }
}

/// `fifo_push` folded over a sequence of insertions, oldest first.
pub open spec fn fifo_push_all<T>(s: Seq<T>, inputs: Seq<T>, cap: nat) -> Seq<T>
    decreases inputs.len(),
{
    if inputs.len() == 0 {
        s
    } else {
        fifo_push_all(fifo_push(s, inputs[0], cap), inputs.skip(1), cap)
    }
}

/// A fixed-capacity sequence of entries ordered by insertion time, oldest
/// first. Its length never exceeds the capacity chosen at construction.
#[derive(Debug)]
pub struct HistoryBuffer<T> {
    entries: VecDeque<T>,
    capacity: usize,
}

impl<T> View for HistoryBuffer<T> {
    type V = Seq<T>;

    closed spec fn view(&self) -> Seq<T> {
        self.entries@
    }
}

impl<T> HistoryBuffer<T> {
    /// The fixed capacity chosen at construction.
    pub closed spec fn spec_capacity(&self) -> usize {
        self.capacity
    }

    /// The buffer invariant: never more entries than the capacity.
    pub open spec fn wf(&self) -> bool {
        self@.len() <= self.spec_capacity()
    }

    /// An empty buffer that will hold at most `capacity` entries.
    pub fn new(capacity: usize) -> (r: Self)
        ensures
            r@ == Seq::<T>::empty(),
            r.spec_capacity() == capacity,
            r.wf(),
    {
        HistoryBuffer { entries: VecDeque::with_capacity(capacity), capacity }
    }

    pub fn capacity(&self) -> (r: usize)
        ensures
            r == self.spec_capacity(),
    {
        self.capacity
    }

    pub fn len(&self) -> (r: usize)
        ensures
            r == self@.len(),
    {
        self.entries.len()
    }

    /// Append `v`, evicting the oldest entry if the buffer is full.
    pub fn push(&mut self, v: T)
        requires
            old(self).wf(),
        ensures
            final(self)@ == fifo_push(old(self)@, v, old(self).spec_capacity() as nat),
            final(self).spec_capacity() == old(self).spec_capacity(),
            final(self).wf(),
    {
        if self.capacity == 0 {
            proof {
                assert(self@.len() == 0);
                assert(fifo_push(self@, v, 0) =~= self@);
            }
            return;
        }
        if self.entries.len() == self.capacity {
            self.entries.pop_front();
        }
        self.entries.push_back(v);
        proof {
            assert(self@ =~= fifo_push(old(self)@, v, old(self).spec_capacity() as nat));
        }
    }

    /// The most recently inserted entry, or `None` while the buffer has
    /// never received one (or its capacity is 0).
    pub fn latest(&self) -> (r: Option<&T>)
        ensures
            match r {
                Some(x) => self@.len() > 0 && *x == self@.last(),
                None => self@.len() == 0,
            },
    {
        let n = self.entries.len();
        if n == 0 {
            None
        } else {
            Some(&self.entries[n - 1])
        }
    }

    /// A reference to the entry at position `i`, oldest first.
    pub fn get(&self, i: usize) -> (r: &T)
        requires
            i < self@.len(),
        ensures
            *r == self@[i as int],
    {
        &self.entries[i]
    }
}

impl<T: Copy> HistoryBuffer<T> {
    /// A point-in-time copy of the contents, oldest first.
    pub fn snapshot(&self) -> (r: Vec<T>)
        ensures
            r@ == self@,
    {
        let mut out: Vec<T> = Vec::new();
        let mut i: usize = 0;
        while i < self.entries.len()
            invariant
                i <= self.entries.len(),
                out@ == self@.take(i as int),
            decreases self.entries.len() - i,
        {
            out.push(self.entries[i]);
            i = i + 1;
            proof {
                assert(out@ =~= self@.take(i as int));
            }
        }
        proof {
            assert(out@ =~= self@);
        }
        out
    }
}

/// Folding bounded-FIFO pushes keeps exactly the most recent entries of the
/// concatenation of the starting contents and the inserts, in order.
pub proof fn lemma_fifo_concat<T>(s: Seq<T>, inputs: Seq<T>, cap: nat)
    requires
        s.len() <= cap,
    ensures
        fifo_push_all(s, inputs, cap) == if s.len() + inputs.len() <= cap {
            s + inputs
        } else {
            (s + inputs).skip(s.len() + inputs.len() - cap)
        },
    decreases inputs.len(),
{
    if inputs.len() == 0 {
        assert(s + inputs =~= s);
    } else {
        let s2 = fifo_push(s, inputs[0], cap);
        assert(s2.len() <= cap);
        lemma_fifo_concat(s2, inputs.skip(1), cap);
        if s.len() + inputs.len() <= cap {
            assert(s2 + inputs.skip(1) =~= s + inputs);
        } else {
            assert(s2 + inputs.skip(1) =~= (s + inputs).skip(
                if s.len() + 1 <= cap {
                    0
                } else {
                    s.len() + 1 - cap
                },
            ));
            if s2.len() + inputs.len() - 1 <= cap {
                assert(s2 + inputs.skip(1) =~= (s + inputs).skip(
                    s.len() + inputs.len() - cap,
                ));
            } else {
                assert((s2 + inputs.skip(1)).skip(s2.len() + inputs.len() - 1 - cap) =~= (s
                    + inputs).skip(s.len() + inputs.len() - cap));
            }
        }
    }
}

/// The newest-entry law: a buffer with room for anything at all reports
/// the entry just pushed as its most recent one, never an older or a
/// dropped one.
pub proof fn lemma_fifo_push_latest<T>(s: Seq<T>, v: T, cap: nat)
    requires
        cap > 0,
    ensures
        fifo_push(s, v, cap).len() > 0,
        fifo_push(s, v, cap).last() == v,
{
}

/// The sliding-window law of the bounded FIFO buffer: starting from any
/// contents within capacity, inserting at least `cap` further entries
/// leaves exactly the most recent `cap` of them, in insertion order.
pub proof fn lemma_fifo_window<T>(s: Seq<T>, inputs: Seq<T>, cap: nat)
    requires
        s.len() <= cap,
        inputs.len() >= cap,
    ensures
        fifo_push_all(s, inputs, cap) == inputs.skip(inputs.len() - cap),
{
    lemma_fifo_concat(s, inputs, cap);
    if s.len() + inputs.len() <= cap {
        assert(s + inputs =~= inputs.skip(inputs.len() - cap));
    } else {
        assert((s + inputs).skip(s.len() + inputs.len() - cap) =~= inputs.skip(
            inputs.len() - cap,
        ));
    }
}

} // verus!
