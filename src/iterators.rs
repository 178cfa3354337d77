//! Lazy, randomly seekable iteration over the indices of a collection of known
//! size. The cursor hands out one index at a time, from the front or from the
//! back; moving by `n` only moves the cursor, so the caller reads one element
//! for the position handed out and none for the ones skipped.

use vstd::prelude::*;

verus! {

/// The indices `from, from + 1, ..., to - 1`.
pub open spec fn index_range(from: u32, to: u32) -> Seq<u32> {
    Seq::new((to - from) as nat, |i: int| (from + i) as u32)
}

/// A window of indices that narrows from both ends.
#[derive(Clone, Copy, Debug)]
pub struct IndexCursor {
    next: u32,
    max: u32,
}

/// Iterator over the fans.
pub type FanIter = IndexCursor;
/// Iterator over the batteries.
pub type BatteryIter = IndexCursor;
/// Iterator over the processor cores.
pub type CpuIter = IndexCursor;
/// Iterator over the metadata of all keys.
pub type KeysIter = IndexCursor;
/// Iterator over the values of all keys.
pub type DataIter = IndexCursor;

impl IndexCursor {
    /// The front end of the window never passes the back end.
    pub closed spec fn wf(&self) -> bool {
        self.next <= self.max
    }

    /// The indices still to be handed out, in order.
    pub closed spec fn remaining(&self) -> Seq<u32> {
        index_range(self.next, self.max)
    }

    /// A cursor over the indices `0..count`.
    pub fn new(count: u32) -> (r: IndexCursor)
        ensures
            r.wf(),
            r.remaining() == index_range(0, count),
    {
        IndexCursor { next: 0, max: count }
    }

    /// Hands out the first remaining index.
    pub fn next(&mut self) -> (r: Option<u32>)
        requires
            old(self).wf(),
        ensures
            final(self).wf(),
            old(self).remaining().len() == 0 ==> r is None && final(self).remaining() == old(self).remaining(),
            old(self).remaining().len() > 0 ==> r == Some(old(self).remaining()[0])
                && final(self).remaining() == old(self).remaining().drop_first(),
    {
        if self.next >= self.max {
            return None;
        }
        let i = self.next;
        self.next = self.next + 1;
        assert(index_range(self.next, self.max) =~= index_range(i, self.max).drop_first());
        Some(i)
    }

    /// Hands out the last remaining index.
    pub fn next_back(&mut self) -> (r: Option<u32>)
        requires
            old(self).wf(),
        ensures
            final(self).wf(),
            old(self).remaining().len() == 0 ==> r is None && final(self).remaining() == old(self).remaining(),
            old(self).remaining().len() > 0 ==> r == Some(old(self).remaining().last())
                && final(self).remaining() == old(self).remaining().drop_last(),
    {
        if self.max <= self.next {
            return None;
        }
        let old_max = self.max;
        self.max = self.max - 1;
        assert(index_range(self.next, self.max) =~= index_range(self.next, old_max).drop_last());
        Some(self.max)
    }

    /// Skips `n` indices and hands out the one after them.
    pub fn nth(&mut self, n: usize) -> (r: Option<u32>)
        requires
            old(self).wf(),
        ensures
            final(self).wf(),
            n < old(self).remaining().len() ==> r == Some(old(self).remaining()[n as int])
                && final(self).remaining() == old(self).remaining().skip(n + 1),
            n >= old(self).remaining().len() ==> r is None && final(self).remaining().len() == 0,
    {
        let left = (self.max - self.next) as usize;
        if n >= left {
            self.next = self.max;
            return None;
        }
        let i = self.next + n as u32;
        let ghost before = self.remaining();
        self.next = i + 1;
        assert(self.remaining() =~= before.skip(n + 1));
        Some(i)
    }

    /// Skips `n` indices from the back and hands out the one before them.
    pub fn nth_back(&mut self, n: usize) -> (r: Option<u32>)
        requires
            old(self).wf(),
        ensures
            final(self).wf(),
            n < old(self).remaining().len() ==> r == Some(old(self).remaining()[old(self).remaining().len() - 1 - n])
                && final(self).remaining() == old(self).remaining().take(old(self).remaining().len() - 1 - n),
            n >= old(self).remaining().len() ==> r is None && final(self).remaining().len() == 0,
    {
        let left = (self.max - self.next) as usize;
        if n >= left {
            self.max = self.next;
            return None;
        }
        let ghost before = self.remaining();
        let i = self.max - 1 - n as u32;
        self.max = i;
        assert(self.remaining() =~= before.take(before.len() - 1 - n));
        Some(i)
    }

    /// How many indices remain, as lower and upper bound.
    pub fn size_hint(&self) -> (r: (usize, Option<usize>))
        requires
            self.wf(),
        ensures
            r.0 == self.remaining().len(),
            r.1 == Some(self.remaining().len() as usize),
    {
        let left = (self.max - self.next) as usize;
        (left, Some(left))
    }

    /// How many indices remain.
    pub fn count(self) -> (r: usize)
        requires
            self.wf(),
        ensures
            r == self.remaining().len(),
    {
        (self.max - self.next) as usize
    }

    /// The last remaining index.
    pub fn last(self) -> (r: Option<u32>)
        requires
            self.wf(),
        ensures
            self.remaining().len() == 0 ==> r is None,
            self.remaining().len() > 0 ==> r == Some(self.remaining().last()),
    {
        let mut c = self;
        c.next_back()
    }
}

/// The indices a walk from the front hands out, one `next` after another.
pub open spec fn forward_walk(s: Seq<u32>) -> Seq<u32>
    decreases s.len(),
{
    if s.len() == 0 {
        s
    } else {
        seq![s[0]] + forward_walk(s.drop_first())
    }
}

/// The indices a walk from the back hands out, one `next_back` after another.
pub open spec fn backward_walk(s: Seq<u32>) -> Seq<u32>
    decreases s.len(),
{
    if s.len() == 0 {
        s
    } else {
        seq![s.last()] + backward_walk(s.drop_last())
    }
}

/// What remains after `k` calls of `next`.
pub open spec fn after_nexts(s: Seq<u32>, k: nat) -> Seq<u32>
    decreases k,
{
    if k == 0 || s.len() == 0 {
        s
    } else {
        after_nexts(s.drop_first(), (k - 1) as nat)
    }
}

/// Walking a collection of `n` elements from the front visits the indices
/// `0, 1, ..., n - 1` in order, each once.
pub proof fn lemma_forward_walk(s: Seq<u32>)
    ensures
        forward_walk(s) == s,
    decreases s.len(),
{
    if s.len() > 0 {
        lemma_forward_walk(s.drop_first());
        assert(seq![s[0]] + s.drop_first() =~= s);
    }
}

/// Walking from the back visits the same indices as walking from the front,
/// in reverse order.
pub proof fn lemma_backward_walk(s: Seq<u32>)
    ensures
        backward_walk(s) == Seq::new(s.len(), |i: int| s[s.len() - 1 - i]),
    decreases s.len(),
{
    if s.len() > 0 {
        lemma_backward_walk(s.drop_last());
        assert(backward_walk(s) =~= Seq::new(s.len(), |i: int| s[s.len() - 1 - i]));
    }
}

/// `nth(k)` hands out the index that `k` calls of `next` followed by one more
/// would hand out, and leaves the cursor where those calls leave it.
pub proof fn lemma_nth_is_nexts(s: Seq<u32>, k: nat)
    requires
        k < s.len(),
    ensures
        after_nexts(s, k)[0] == s[k as int],
        after_nexts(s, k + 1) == s.skip((k + 1) as int),
    decreases k,
{
    if k > 0 {
        lemma_nth_is_nexts(s.drop_first(), (k - 1) as nat);
        assert(s.drop_first().skip(k as int) =~= s.skip((k + 1) as int));
    } else {
        assert(after_nexts(s.drop_first(), 0) == s.drop_first());
        assert(s.drop_first() =~= s.skip(1));
    }
}

/// A fresh cursor over `n` elements holds the indices `0..n` in order.
pub proof fn lemma_fresh_cursor(n: u32)
    ensures
        index_range(0, n) == Seq::new(n as nat, |i: int| i as u32),
{
    assert(index_range(0, n) =~= Seq::new(n as nat, |i: int| i as u32));
}

/// A cursor over a collection of `n` elements, walked from the front, hands
/// out `0, 1, ..., n - 1`; walked from the back, `n - 1, ..., 1, 0`.
pub proof fn lemma_walks_of_fresh_cursor(n: u32)
    ensures
        forward_walk(index_range(0, n)) == Seq::new(n as nat, |i: int| i as u32),
        backward_walk(index_range(0, n)) == Seq::new(n as nat, |i: int| (n - 1 - i) as u32),
{
    lemma_fresh_cursor(n);
    lemma_forward_walk(index_range(0, n));
    lemma_backward_walk(index_range(0, n));
    assert(Seq::new(n as nat, |i: int| index_range(0, n)[n - 1 - i]) =~= Seq::new(n as nat, |i: int| (n - 1 - i) as u32));
}

} // verus!
