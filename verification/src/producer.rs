use vstd::prelude::*;

verus! {

/// A sequential source of items, yielding them one at a time and signalling
/// exhaustion by returning `None`. This is the abstraction the progress
/// decorator wraps.
pub trait Producer {
    type Item;

    /// The items this producer has yet to yield, in order.
    spec fn remaining(&self) -> Seq<Self::Item>;

    /// Yields the next item, or `None` once the producer is exhausted.
    /// An exhausted producer stays exhausted.
    fn next(&mut self) -> (r: Option<Self::Item>)
        ensures
            old(self).remaining().len() == 0 ==> ({
                &&& r is None
                &&& final(self).remaining() == old(self).remaining()
            }),
            old(self).remaining().len() > 0 ==> ({
                &&& r == Some(old(self).remaining()[0])
                &&& final(self).remaining() == old(self).remaining().skip(1)
            }),
    ;
}

/// A producer that can report exactly how many items it has left to yield.
/// Only such producers can be marked as bounded by the decorator.
pub trait ExactSizeProducer: Producer {
    fn len(&self) -> (n: usize)
        ensures
            n == self.remaining().len(),
    ;
}

/// A producer that yields the elements of a vector, in order.
pub struct VecProducer<A> {
    items: Vec<A>,
    pos: usize,
}

impl<A> VecProducer<A> {
    #[verifier::type_invariant]
    spec fn inv(&self) -> bool {
        self.pos <= self.items@.len()
    }
}

impl<A: Copy> VecProducer<A> {
    pub fn new(items: Vec<A>) -> (p: VecProducer<A>)
        ensures
            p.remaining() == items@,
    {
        let p = VecProducer { items, pos: 0 };
        proof {
            assert(p.remaining() =~= p.items@);
        }
        p
    }
}

impl<A: Copy> Producer for VecProducer<A> {
    type Item = A;

    closed spec fn remaining(&self) -> Seq<A> {
        self.items@.skip(self.pos as int)
    }

    fn next(&mut self) -> (r: Option<A>) {
        proof {
            use_type_invariant(&*self);
        }
        if self.pos < self.items.len() {
            let x = self.items[self.pos];
            self.pos = self.pos + 1;
            proof {
                assert(self.remaining() =~= old(self).remaining().skip(1));
            }
            Some(x)
        } else {
            None
        }
    }
}

impl<A: Copy> ExactSizeProducer for VecProducer<A> {
    fn len(&self) -> (n: usize) {
        proof {
            use_type_invariant(self);
        }
        self.items.len() - self.pos
    }
}

} // verus!
