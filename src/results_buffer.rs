use std::collections::VecDeque;

use vstd::prelude::*;

verus! {

/// Bounded FIFO of rows that remembers how many rows it has ever been handed.
#[derive(Debug, Clone)]
pub struct ResultsRingBuffer<T> {
    capacity: usize,
    rows: VecDeque<T>,
    total_rows_seen: u64,
}

/// The rows held after `row` is pushed onto `rows` with room for `cap`: the oldest leaves
/// when full.
pub open spec fn ring_push<T>(cap: nat, rows: Seq<T>, row: T) -> Seq<T> {
    if rows.len() >= cap && rows.len() > 0 {
        rows.drop_first().push(row)
    } else {
        rows.push(row)
    }
}

/// The rows held after pushing each of `xs` in order onto an empty buffer.
pub open spec fn ring_after<T>(cap: nat, xs: Seq<T>) -> Seq<T>
    decreases xs.len(),
{
    if xs.len() == 0 {
        seq![]
    } else {
        ring_push(cap, ring_after(cap, xs.drop_last()), xs.last())
    }
}

pub open spec fn min_nat(a: nat, b: nat) -> nat {
    if a <= b {
        a
    } else {
        b
    }
}

/// After any sequence of pushes into a buffer of capacity `cap > 0`, it holds the last
/// `min(n, cap)` rows pushed, in order; so never more than `cap`.
pub proof fn ring_holds_latest_rows<T>(cap: nat, xs: Seq<T>)
    requires
        cap > 0,
    ensures
        ring_after(cap, xs).len() == min_nat(xs.len(), cap),
        ring_after(cap, xs).len() <= cap,
        ring_after(cap, xs) == xs.subrange(xs.len() - min_nat(xs.len(), cap), xs.len() as int),
    decreases xs.len(),
{
    if xs.len() > 0 {
        let prev = xs.drop_last();
        ring_holds_latest_rows(cap, prev);
        let m = min_nat(prev.len(), cap);
        if prev.len() >= cap {
            assert(ring_after(cap, xs) =~= xs.subrange(xs.len() - cap, xs.len() as int));
        } else {
            assert(ring_after(cap, xs) =~= xs.subrange(0, xs.len() as int));
        }
    } else {
        assert(xs.subrange(0, 0) =~= Seq::<T>::empty());
    }
}

impl<T> View for ResultsRingBuffer<T> {
    type V = Seq<T>;

    /// The buffered rows, oldest first.
    closed spec fn view(&self) -> Seq<T> {
        self.rows@
    }
}

impl<T> ResultsRingBuffer<T> {
    /// Room for this many rows.
    pub closed spec fn cap(&self) -> nat {
        self.capacity as nat
    }

    /// Rows ever pushed.
    pub closed spec fn seen(&self) -> nat {
        self.total_rows_seen as nat
    }

    /// What validity says of the rows held: no more than the capacity, no more than were
    /// ever pushed, and a positive capacity.
    pub proof fn wf_bounds(&self)
        requires
            self.wf(),
        ensures
            self@.len() <= self.cap(),
            self@.len() <= self.seen(),
            self.cap() > 0,
    {
    }

    pub closed spec fn wf(&self) -> bool {
        &&& self.capacity > 0
        &&& self.rows@.len() <= self.capacity
        &&& self.rows@.len() <= self.total_rows_seen
    }

    /// An empty buffer; the capacity must be positive.
    pub fn new(capacity: usize) -> (r: Self)
        requires
            capacity > 0,
        ensures
            r.wf(),
            r@ == Seq::<T>::empty(),
            r.cap() == capacity,
            r.seen() == 0,
    {
        ResultsRingBuffer { capacity, rows: VecDeque::new(), total_rows_seen: 0 }
    }

    /// Whether the buffer keeps its invariant: a positive capacity, no more rows than
    /// that, and no more rows than were ever pushed.
    pub fn is_well_formed(&self) -> (r: bool)
        ensures
            r == self.wf(),
    {
        self.capacity > 0 && self.rows.len() <= self.capacity && self.rows.len() as u64
            <= self.total_rows_seen
    }

    pub fn capacity(&self) -> (r: usize)
        ensures
            r == self.cap(),
    {
        self.capacity
    }

    pub fn len(&self) -> (r: usize)
        ensures
            r == self@.len(),
            self.wf() ==> r <= self.cap() && r <= self.seen(),
    {
        self.rows.len()
    }

    pub fn is_empty(&self) -> (r: bool)
        ensures
            r == (self@.len() == 0),
    {
        self.rows.len() == 0
    }

    pub fn total_rows_seen(&self) -> (r: u64)
        ensures
            r == self.seen(),
    {
        self.total_rows_seen
    }

    /// Stream position of the oldest buffered row.
    pub fn earliest_buffered_index(&self) -> (r: u64)
        requires
            self.wf(),
        ensures
            r == self.seen() - self@.len(),
    {
        self.total_rows_seen - self.rows.len() as u64
    }

    /// Stream position of the newest buffered row, if any.
    pub fn latest_buffered_index(&self) -> (r: Option<u64>)
        requires
            self.wf(),
        ensures
            self@.len() == 0 ==> r is None,
            self@.len() > 0 ==> r == Some((self.seen() - 1) as u64),
    {
        if self.rows.len() == 0 {
            return None;
        }
        Some(self.total_rows_seen - 1)
    }

    /// Appends a row, dropping the oldest when full.
    pub fn push(&mut self, row: T)
        requires
            old(self).wf(),
            old(self).seen() < u64::MAX,
        ensures
            final(self).wf(),
            final(self)@ == ring_push(old(self).cap(), old(self)@, row),
            final(self)@.len() == min_nat((old(self)@.len() + 1) as nat, old(self).cap()),
            final(self)@.last() == row,
            final(self).cap() == old(self).cap(),
            final(self).seen() == old(self).seen() + 1,
    {
        if self.rows.len() == self.capacity {
            self.rows.pop_front();
        }
        self.rows.push_back(row);
        self.total_rows_seen = self.total_rows_seen + 1;
        proof {
            if old(self)@.len() >= old(self).cap() {
                assert(self.rows@ =~= old(self)@.drop_first().push(row));
            }
        }
    }

    /// The row at `index`, counted from the oldest buffered row.
    pub fn get(&self, index: usize) -> (r: Option<&T>)
        ensures
            index < self@.len() ==> r == Some(&self@[index as int]),
            index >= self@.len() ==> r is None,
    {
        if index < self.rows.len() {
            Some(&self.rows[index])
        } else {
            None
        }
    }

    /// The rows in `[start, start + limit)`, clipped to what is buffered.
    pub fn visible_rows(&self, start: usize, limit: usize) -> (r: Vec<&T>)
        ensures
            start >= self@.len() ==> r@.len() == 0,
            start < self@.len() ==> r@.len() == min_nat(limit as nat, (self@.len() - start) as nat),
            forall|i: int| 0 <= i < r@.len() ==> r@[i] == self@[start + i],
    {
        let mut out: Vec<&T> = Vec::new();
        if limit == 0 || start >= self.rows.len() {
            return out;
        }
        let n = self.rows.len();
        let avail = n - start;
        let count = if limit < avail {
            limit
        } else {
            avail
        };
        let mut i: usize = 0;
        while i < count
            invariant
                count <= avail,
                n == self.rows@.len(),
                avail == n - start,
                start < self.rows@.len(),
                i <= count,
                out@.len() == i,
                forall|k: int| 0 <= k < i ==> out@[k] == self@[start + k],
            decreases count - i,
        {
            out.push(&self.rows[start + i]);
            i = i + 1;
        }
        out
    }
}

} // verus!
