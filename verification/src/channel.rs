//! Fixed-capacity sample channel.
//!
//! A bounded FIFO of samples between one producer (a capture adapter) and
//! one consumer (the mixing engine). Neither side ever blocks: a push onto
//! a full channel drops the new sample and reports it, a pop from an empty
//! channel returns nothing. The storage is a preallocated ring — no
//! reallocation happens on the audio path.

use vstd::prelude::*;

verus! {

/// Position `start + i` wrapped once around a ring of size `cap`.
pub open spec fn wrap_index(start: int, i: int, cap: int) -> int {
    if start + i >= cap {
        start + i - cap
    } else {
        start + i
    }
}

/// Bounded single-producer/single-consumer FIFO of samples.
pub struct SampleChannel {
    buf: Vec<i32>,
    head: usize,
    count: usize,
}

impl View for SampleChannel {
    type V = Seq<i32>;

    /// The queued samples, oldest first.
    closed spec fn view(&self) -> Seq<i32> {
        Seq::new(
            self.count as nat,
            |i: int| self.buf@[wrap_index(self.head as int, i, self.buf@.len() as int)],
        )
    }
}

impl SampleChannel {
    /// The fixed capacity chosen at creation.
    pub closed spec fn cap(&self) -> nat {
        self.buf@.len()
    }

    #[verifier::type_invariant]
    spec fn well_formed(&self) -> bool {
        &&& self.buf@.len() >= 1
        &&& self.head < self.buf@.len()
        &&& self.count <= self.buf@.len()
    }

    /// An empty channel holding at most `capacity` samples.
    pub fn new(capacity: usize) -> (c: SampleChannel)
        requires
            capacity >= 1,
        ensures
            c@ == Seq::<i32>::empty(),
            c.cap() == capacity,
    {
        let c = SampleChannel { buf: vec![0i32; capacity], head: 0, count: 0 };
        proof {
            assert(c@ =~= Seq::<i32>::empty());
        }
        c
    }

    /// How many samples are queued.
    pub fn len(&self) -> (n: usize)
        ensures
            n == self@.len(),
    {
        self.count
    }

    /// Whether no sample is queued.
    pub fn is_empty(&self) -> (e: bool)
        ensures
            e == (self@.len() == 0),
    {
        self.count == 0
    }

    /// Append one sample unless the channel is full; a full channel drops
    /// the new sample and returns false. Never blocks.
    pub fn push(&mut self, s: i32) -> (ok: bool)
        ensures
            final(self).cap() == old(self).cap(),
            old(self)@.len() < old(self).cap() ==> ok && final(self)@ == old(self)@.push(s),
            old(self)@.len() >= old(self).cap() ==> !ok && final(self)@ == old(self)@,
    {
        proof {
            use_type_invariant(&*self);
        }
        let cap = self.buf.len();
        if self.count < cap {
            let tail = if self.count >= cap - self.head {
                self.count - (cap - self.head)
            } else {
                self.head + self.count
            };
            assert(tail == wrap_index(self.head as int, self.count as int, cap as int));
            self.buf[tail] = s;
            self.count = self.count + 1;
            proof {
                assert forall|i: int| 0 <= i < old(self)@.len() implies self@[i] == old(
                    self,
                )@[i] by {
                    assert(wrap_index(self.head as int, i, cap as int) != tail);
                }
                assert(self@ =~= old(self)@.push(s));
            }
            true
        } else {
            proof {
                assert(self@ =~= old(self)@);
            }
            false
        }
    }

    /// Remove and return the oldest sample, or nothing if the channel is
    /// empty. Never blocks.
    pub fn pop(&mut self) -> (r: Option<i32>)
        ensures
            final(self).cap() == old(self).cap(),
            old(self)@.len() == 0 ==> r is None && final(self)@ == old(self)@,
            old(self)@.len() > 0 ==> r == Some(old(self)@[0]) && final(self)@ == old(
                self,
            )@.drop_first(),
    {
        proof {
            use_type_invariant(&*self);
        }
        if self.count == 0 {
            proof {
                assert(self@ =~= old(self)@);
            }
            None
        } else {
            let v = self.buf[self.head];
            let cap = self.buf.len();
            self.head = if self.head + 1 == cap {
                0
            } else {
                self.head + 1
            };
            self.count = self.count - 1;
            proof {
                assert forall|i: int| 0 <= i < self@.len() implies self@[i] == old(
                    self,
                )@.drop_first()[i] by {
                    assert(wrap_index(self.head as int, i, cap as int) == wrap_index(
                        old(self).head as int,
                        i + 1,
                        cap as int,
                    ));
                }
                assert(self@ =~= old(self)@.drop_first());
            }
            Some(v)
        }
    }
}

/// One sample offered to a bounded queue: appended if there is room,
/// dropped otherwise.
pub open spec fn offer(q: Seq<i32>, cap: nat, x: i32) -> Seq<i32> {
    if q.len() < cap {
        q.push(x)
    } else {
        q
    }
}

/// A block of samples offered to a bounded queue in order.
pub open spec fn offer_all(q: Seq<i32>, cap: nat, xs: Seq<i32>) -> Seq<i32>
    decreases xs.len(),
{
    if xs.len() == 0 {
        q
    } else {
        offer_all(offer(q, cap, xs[0]), cap, xs.drop_first())
    }
}

/// Offering a block and then one more sample is offering the extended block.
pub proof fn lemma_offer_all_push(q: Seq<i32>, cap: nat, xs: Seq<i32>, x: i32)
    ensures
        offer_all(q, cap, xs.push(x)) == offer(offer_all(q, cap, xs), cap, x),
    decreases xs.len(),
{
    reveal_with_fuel(offer_all, 3);
    if xs.len() == 0 {
        assert(xs.push(x)[0] == x);
        assert(xs.push(x).drop_first() =~= Seq::<i32>::empty());
        assert(offer_all(q, cap, xs.push(x)) == offer(q, cap, x));
        assert(offer_all(q, cap, xs) == q);
    } else {
        assert(xs.push(x)[0] == xs[0]);
        assert(xs.push(x).drop_first() =~= xs.drop_first().push(x));
        lemma_offer_all_push(offer(q, cap, xs[0]), cap, xs.drop_first(), x);
        assert(offer_all(q, cap, xs.push(x)) == offer_all(
            offer(q, cap, xs[0]),
            cap,
            xs.drop_first().push(x),
        ));
        assert(offer_all(q, cap, xs) == offer_all(offer(q, cap, xs[0]), cap, xs.drop_first()));
    }
}

impl SampleChannel {
    /// Offer every sample of a block in order, dropping those that arrive
    /// while the channel is full.
    pub fn push_all(&mut self, xs: &Vec<i32>)
        ensures
            final(self).cap() == old(self).cap(),
            final(self)@ == offer_all(old(self)@, old(self).cap(), xs@),
    {
        let n = xs.len();
        let mut i: usize = 0;
        while i < n
            invariant
                i <= n,
                n == xs@.len(),
                self.cap() == old(self).cap(),
                self@ == offer_all(old(self)@, old(self).cap(), xs@.take(i as int)),
            decreases n - i,
        {
            let _ = self.push(xs[i]);
            proof {
                assert(xs@.take(i + 1) =~= xs@.take(i as int).push(xs@[i as int]));
                lemma_offer_all_push(old(self)@, old(self).cap(), xs@.take(i as int), xs@[i as int]);
            }
            i = i + 1;
        }
        proof {
            assert(xs@.take(n as int) =~= xs@);
        }
    }
}

} // verus!
