//! Fixed-capacity ring buffer for streaming data.
//!
//! When the buffer is full, pushing a new item evicts (and returns) the
//! oldest item, so the buffer always holds the most recent `capacity` items
//! in arrival order.

use vstd::prelude::*;

verus! {

/// Ring buffer for streaming data.
pub struct RingBuffer<T> {
    data: Vec<T>,
    head: usize,
    tail: usize,
    full: bool,
}

impl<T> RingBuffer<T> {
    /// Number of slots of the buffer.
    pub closed spec fn spec_capacity(&self) -> nat {
        self.data@.len()
    }

    /// Number of items currently held.
    pub closed spec fn spec_len(&self) -> nat {
        if self.full {
            self.data@.len()
        } else if self.tail >= self.head {
            (self.tail - self.head) as nat
        } else {
            (self.data@.len() - self.head + self.tail) as nat
        }
    }

    /// Physical slot of the `i`-th oldest item.
    closed spec fn slot(&self, i: int) -> int {
        if self.head + i < self.data@.len() {
            self.head + i
        } else {
            self.head + i - self.data@.len()
        }
    }

    /// Well-formedness: cursors within the storage, and a full buffer has
    /// its head and tail on the same slot.
    pub closed spec fn wf(&self) -> bool {
        &&& self.data@.len() == 0 ==> (self.head == 0 && self.tail == 0 && !self.full)
        &&& self.data@.len() > 0 ==> (self.head < self.data@.len() && self.tail < self.data@.len())
        &&& self.full ==> self.head == self.tail
    }

    /// The items held, oldest first.
    pub closed spec fn contents(&self) -> Seq<T> {
        Seq::new(self.spec_len(), |i: int| self.data@[self.slot(i)])
    }
}

/// Contents after pushing `x` into a buffer of `cap` slots holding `s`:
/// appended, and the oldest item dropped when the buffer was full.
pub open spec fn ring_push<T>(s: Seq<T>, cap: nat, x: T) -> Seq<T> {
    if s.len() < cap {
        s.push(x)
    } else {
        s.drop_first().push(x)
    }
}

/// Contents after pushing every item of `xs`, in order.
pub open spec fn ring_push_all<T>(s: Seq<T>, cap: nat, xs: Seq<T>) -> Seq<T>
    decreases xs.len(),
{
    if xs.len() == 0 {
        s
    } else {
        ring_push(ring_push_all(s, cap, xs.drop_last()), cap, xs.last())
    }
}

/// A well-formed buffer never holds more items than it has slots.
pub proof fn law_len_within_capacity<T>(rb: &RingBuffer<T>)
    requires
        rb.wf(),
    ensures
        rb@.len() <= rb.spec_capacity(),
{
}

/// Streaming law: pushing any sequence of items into an empty buffer of
/// `cap > 0` slots leaves exactly the most recent `cap` items, oldest first.
pub proof fn law_keeps_most_recent<T>(cap: nat, xs: Seq<T>)
    requires
        cap > 0,
    ensures
        ring_push_all(Seq::<T>::empty(), cap, xs)
            == xs.subrange(if xs.len() > cap { xs.len() - cap } else { 0 }, xs.len() as int),
    decreases xs.len(),
{
    if xs.len() > 0 {
        let prev = xs.drop_last();
        law_keeps_most_recent(cap, prev);
        let p = ring_push_all(Seq::<T>::empty(), cap, prev);
        if prev.len() < cap {
            assert(ring_push(p, cap, xs.last()) =~= xs.subrange(
                if xs.len() > cap { xs.len() - cap } else { 0 },
                xs.len() as int,
            ));
        } else {
            assert(ring_push(p, cap, xs.last()) =~= xs.subrange(xs.len() - cap, xs.len() as int));
        }
    } else {
        assert(xs.subrange(0, 0) =~= Seq::<T>::empty());
    }
}

/// A call on a ring buffer.
pub enum RingCall<T> {
    Push(T),
    Pop,
    Clear,
    /// `to_vec`, `len`, `capacity` and the other reads.
    Read,
}

/// Contents after call `c` on a buffer of `cap` slots holding `s`.
pub open spec fn ring_step<T>(s: Seq<T>, cap: nat, c: RingCall<T>) -> Seq<T> {
    match c {
        RingCall::Push(x) => ring_push(s, cap, x),
        RingCall::Pop => if s.len() == 0 { s } else { s.drop_first() },
        RingCall::Clear => Seq::empty(),
        RingCall::Read => s,
    }
}

/// Contents after the calls `cs`, in order.
pub open spec fn ring_run<T>(s: Seq<T>, cap: nat, cs: Seq<RingCall<T>>) -> Seq<T>
    decreases cs.len(),
{
    if cs.len() == 0 {
        s
    } else {
        ring_step(ring_run(s, cap, cs.drop_last()), cap, cs.last())
    }
}

/// `after` is `before` after call `c`: well formed, same slots, contents
/// as the call gives.
pub open spec fn ring_call<T>(before: RingBuffer<T>, c: RingCall<T>, after: RingBuffer<T>) -> bool {
    &&& after.wf()
    &&& after.spec_capacity() == before.spec_capacity()
    &&& after@ == ring_step(before@, before.spec_capacity(), c)
}

/// Over any sequence of calls on a well-formed buffer, the number of slots
/// never changes, the buffer never holds more items than slots, and its
/// contents are what the calls give one after another.
pub proof fn law_call_sequence<T>(states: Seq<RingBuffer<T>>, cs: Seq<RingCall<T>>)
    requires
        states.len() == cs.len() + 1,
        states[0].wf(),
        forall|i: int| 0 <= i < cs.len() ==> #[trigger] ring_call(states[i], cs[i], states[i + 1]),
    ensures
        forall|i: int|
            0 <= i < states.len() ==> {
                &&& (#[trigger] states[i]).spec_capacity() == states[0].spec_capacity()
                &&& states[i]@.len() <= states[0].spec_capacity()
                &&& states[i]@ == ring_run(states[0]@, states[0].spec_capacity(), cs.take(i))
            },
    decreases cs.len(),
{
    let n = cs.len();
    if n > 0 {
        let ps = states.drop_last();
        let pc = cs.drop_last();
        assert forall|i: int| 0 <= i < pc.len() implies #[trigger] ring_call(ps[i], pc[i], ps[i + 1]) by {
            assert(ring_call(states[i], cs[i], states[i + 1]));
        }
        law_call_sequence(ps, pc);
        assert forall|i: int| 0 <= i < states.len() implies {
            &&& (#[trigger] states[i]).spec_capacity() == states[0].spec_capacity()
            &&& states[i]@.len() <= states[0].spec_capacity()
            &&& states[i]@ == ring_run(states[0]@, states[0].spec_capacity(), cs.take(i))
        } by {
            if i < states.len() - 1 {
                assert(ps[i] == states[i]);
                assert(cs.take(i) =~= pc.take(i));
            } else {
                let j = i - 1;
                assert(ps[j] == states[j]);
                assert(ring_call(states[j], cs[j], states[j + 1]));
                assert(cs.take(i).drop_last() =~= pc.take(i - 1));
                assert(cs.take(i).last() == cs[i - 1]);
            }
        }
    } else {
        assert(cs.take(0) =~= Seq::<RingCall<T>>::empty());
    }
}

/// Advancing a cursor by one slot, modulo the capacity.
proof fn lemma_advance(x: nat, cap: nat)
    requires
        x < cap,
    ensures
        (x + 1) % cap == if x + 1 == cap { 0 } else { x + 1 },
{
    if x + 1 == cap {
        vstd::arithmetic::div_mod::lemma_mod_self_0(cap as int);
    } else {
        vstd::arithmetic::div_mod::lemma_small_mod((x + 1) as nat, cap);
    }
}

impl<T> View for RingBuffer<T> {
    type V = Seq<T>;

    open spec fn view(&self) -> Seq<T> {
        self.contents()
    }
}

impl<T: Clone + Default> RingBuffer<T> {
    /// Create a new, empty ring buffer with `capacity` slots.
    pub fn new(capacity: usize) -> (r: Self)
        ensures
            r.wf(),
            r@ == Seq::<T>::empty(),
            r.spec_capacity() == capacity,
    {
        let r = RingBuffer { data: vec![T::default(); capacity], head: 0, tail: 0, full: false };
        assert(r@ =~= Seq::<T>::empty());
        r
    }

    /// Push an item. When the buffer was full, the oldest item is evicted
    /// and a clone of it is returned.
    pub fn push(&mut self, item: T) -> (evicted: Option<T>)
        requires
            old(self).wf(),
            old(self).spec_capacity() > 0,
        ensures
            final(self).wf(),
            final(self).spec_capacity() == old(self).spec_capacity(),
            final(self)@ == ring_push(old(self)@, old(self).spec_capacity(), item),
            ring_call(*old(self), RingCall::Push(item), *final(self)),
            old(self)@.len() < old(self).spec_capacity() ==> evicted is None,
            old(self)@.len() == old(self).spec_capacity() ==> {
                &&& evicted is Some
                &&& cloned(old(self)@[0], evicted->0)
            },
    {
        let ghost old_view = self@;
        let ghost cap = self.data@.len();
        let n = self.data.len();
        let evicted = if self.full {
            Some(self.data[self.head].clone())
        } else {
            None
        };

        self.data[self.tail] = item;
        proof {
            lemma_advance(self.tail as nat, cap);
        }
        self.tail = (self.tail + 1) % n;

        if self.full {
            proof {
                lemma_advance(self.head as nat, cap);
            }
            self.head = (self.head + 1) % n;
        }

        self.full = self.tail == self.head;

        proof {
            if old_view.len() < cap {
                assert(self@ =~= old_view.push(item));
            } else {
                assert(self@ =~= old_view.drop_first().push(item));
            }
        }
        evicted
    }

    /// Pop the oldest item, if any (a clone of it is returned).
    pub fn pop(&mut self) -> (r: Option<T>)
        requires
            old(self).wf(),
        ensures
            final(self).wf(),
            final(self).spec_capacity() == old(self).spec_capacity(),
            ring_call(*old(self), RingCall::Pop, *final(self)),
            old(self)@.len() == 0 ==> r is None && final(self)@ == old(self)@,
            old(self)@.len() > 0 ==> {
                &&& r is Some
                &&& cloned(old(self)@[0], r->0)
                &&& final(self)@ == old(self)@.drop_first()
            },
    {
        if self.is_empty() {
            return None;
        }
        let ghost old_view = self@;
        let ghost cap = self.data@.len();

        let n = self.data.len();
        let item = self.data[self.head].clone();
        proof {
            lemma_advance(self.head as nat, cap);
        }
        self.head = (self.head + 1) % n;
        self.full = false;
        assert(self@ =~= old_view.drop_first());
        Some(item)
    }

    /// Check if the buffer is empty.
    pub fn is_empty(&self) -> (r: bool)
        requires
            self.wf(),
        ensures
            r == (self@.len() == 0),
    {
        !self.full && self.head == self.tail
    }

    /// Check if the buffer is full: every slot holds an item.
    pub fn is_full(&self) -> (r: bool)
        requires
            self.wf(),
        ensures
            r == (self.spec_capacity() > 0 && self@.len() == self.spec_capacity()),
    {
        self.full
    }

    /// Number of items currently held.
    pub fn len(&self) -> (r: usize)
        requires
            self.wf(),
        ensures
            r == self@.len(),
    {
        if self.full {
            self.data.len()
        } else if self.tail >= self.head {
            self.tail - self.head
        } else {
            self.data.len() - self.head + self.tail
        }
    }

    /// Number of slots.
    pub fn capacity(&self) -> (r: usize)
        ensures
            r == self.spec_capacity(),
    {
        self.data.len()
    }

    /// Remove every item.
    pub fn clear(&mut self)
        requires
            old(self).wf(),
        ensures
            final(self).wf(),
            final(self)@ == Seq::<T>::empty(),
            final(self).spec_capacity() == old(self).spec_capacity(),
            ring_call(*old(self), RingCall::Clear, *final(self)),
    {
        self.head = 0;
        self.tail = 0;
        self.full = false;
        assert(self@ =~= Seq::<T>::empty());
    }

    /// Clones of all items, oldest first.
    pub fn to_vec(&self) -> (r: Vec<T>)
        requires
            self.wf(),
        ensures
            r@.len() == self@.len(),
            forall|i: int| 0 <= i < r@.len() ==> cloned(#[trigger] self@[i], r@[i]),
            ring_call(*self, RingCall::Read, *self),
    {
        let len = self.len();
        let cap = self.data.len();
        let mut result: Vec<T> = Vec::with_capacity(len);
        for k in 0..len
            invariant
                self.wf(),
                len == self@.len(),
                cap == self.spec_capacity(),
                result@.len() == k,
                forall|j: int| 0 <= j < k ==> cloned(#[trigger] self@[j], result@[j]),
        {
            let idx = if self.head < cap - k { self.head + k } else { k - (cap - self.head) };
            result.push(self.data[idx].clone());
        }
        result
    }
}

} // verus!
