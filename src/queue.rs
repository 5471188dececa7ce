use std::collections::VecDeque;

use vstd::prelude::*;

verus! {

/// An unbounded first-in, first-out queue; each item leaves it exactly once.
pub struct Fifo<T> {
    items: VecDeque<T>,
}

impl<T> View for Fifo<T> {
    type V = Seq<T>;

    closed spec fn view(&self) -> Seq<T> {
        self.items@
    }
}

/// The queue contents after `xs` were pushed, in order, onto `q`.
pub open spec fn pushed_all<T>(q: Seq<T>, xs: Seq<T>) -> Seq<T>
    decreases xs.len(),
{
    if xs.len() == 0 {
        q
    } else {
        pushed_all(q.push(xs[0]), xs.drop_first())
    }
}

/// The items that `n` pops take from `q`, in the order they come out.
pub open spec fn popped_n<T>(q: Seq<T>, n: nat) -> Seq<T>
    decreases n,
{
    if n == 0 || q.len() == 0 {
        Seq::empty()
    } else {
        seq![q[0]] + popped_n(q.drop_first(), (n - 1) as nat)
    }
}

proof fn lemma_pushed_all_appends<T>(q: Seq<T>, xs: Seq<T>)
    ensures
        pushed_all(q, xs) == q + xs,
    decreases xs.len(),
{
    if xs.len() == 0 {
        assert(q + xs =~= q);
    } else {
        lemma_pushed_all_appends(q.push(xs[0]), xs.drop_first());
        assert(q.push(xs[0]) + xs.drop_first() =~= q + xs);
    }
}

proof fn lemma_popped_all<T>(q: Seq<T>)
    ensures
        popped_n(q, q.len()) == q,
    decreases q.len(),
{
    if q.len() == 0 {
        assert(q =~= Seq::<T>::empty());
    } else {
        lemma_popped_all(q.drop_first());
        assert(seq![q[0]] + q.drop_first() =~= q);
    }
}

/// First in, first out: after `push_all` puts any items onto an empty queue,
/// `pop_n` of as many hands them back in the order they were pushed.
pub proof fn lemma_fifo_order<T>(xs: Seq<T>)
    ensures
        popped_n(pushed_all(Seq::empty(), xs), xs.len()) == xs,
{
    lemma_pushed_all_appends(Seq::empty(), xs);
    assert(Seq::<T>::empty() + xs =~= xs);
    lemma_popped_all(xs);
}

impl<T> Fifo<T> {
    pub fn new() -> (r: Fifo<T>)
        ensures
            r@ == Seq::<T>::empty(),
    {
        Fifo { items: VecDeque::new() }
    }

    pub fn len(&self) -> (r: usize)
        ensures
            r == self@.len(),
    {
        self.items.len()
    }

    /// Adds an item at the back.
    pub fn push(&mut self, x: T)
        ensures
            final(self)@ == old(self)@.push(x),
    {
        self.items.push_back(x);
    }

    /// Pushes the items, in order, emptying `xs`.
    pub fn push_all(&mut self, xs: &mut Vec<T>)
        ensures
            final(self)@ == pushed_all(old(self)@, old(xs)@),
            final(xs)@.len() == 0,
    {
        while xs.len() > 0
            invariant
                pushed_all(self@, xs@) == pushed_all(old(self)@, old(xs)@),
            decreases xs@.len(),
        {
            let ghost before = xs@;
            let x = xs.remove(0);
            assert(xs@ =~= before.drop_first());
            self.push(x);
        }
    }

    /// Pops up to `n` items, in the order they leave the queue.
    pub fn pop_n(&mut self, n: usize) -> (r: Vec<T>)
        ensures
            r@ == popped_n(old(self)@, n as nat),
            r@ + final(self)@ == old(self)@,
    {
        let mut out: Vec<T> = Vec::new();
        let mut i: usize = 0;
        while i < n
            invariant
                i <= n,
                popped_n(old(self)@, n as nat) == out@ + popped_n(self@, (n - i) as nat),
                out@ + self@ == old(self)@,
            decreases n - i,
        {
            let ghost q = self@;
            match self.pop() {
                Some(x) => {
                    out.push(x);
                    assert(popped_n(q, (n - i) as nat) == seq![x] + popped_n(
                        self@,
                        (n - i - 1) as nat,
                    ));
                    assert(out@ + popped_n(self@, (n - i - 1) as nat) =~= out@.drop_last() + (
                    seq![x] + popped_n(self@, (n - i - 1) as nat)));
                    assert(out@ + self@ =~= out@.drop_last() + q);
                },
                None => {
                    assert(popped_n(self@, (n - i) as nat) == Seq::<T>::empty());
                    assert(out@ + Seq::<T>::empty() =~= out@);
                    return out;
                },
            }
            i = i + 1;
        }
        assert(out@ + Seq::<T>::empty() =~= out@);
        out
    }

    /// Takes the item at the front, if there is one.
    pub fn pop(&mut self) -> (r: Option<T>)
        ensures
            old(self)@.len() == 0 ==> r is None && final(self)@ == old(self)@,
            old(self)@.len() > 0 ==> r == Some(old(self)@[0]) && final(self)@
                == old(self)@.drop_first(),
    {
        self.items.pop_front()
    }
}

} // verus!
