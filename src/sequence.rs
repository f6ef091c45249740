use vstd::prelude::*;
use vstd::std_specs::iter::IteratorSpec;

use crate::container::inspected;

verus! {

/// A sequence that can be tapped: the result yields the same elements,
/// showing each one to an inspector as it is pulled.
pub trait TappableIter<T>: Sized {
    /// Wraps `self` and `op` in a [`Tap`]; nothing is pulled and `op` is not
    /// called until the `Tap` is asked for an element.
    fn tap<U, F: Fn(&T) -> U>(self, op: F) -> (r: Tap<Self, F>)
        ensures
            r.inner() == self,
            r.inspector() == op,
    ;
}

impl<T, I> TappableIter<T> for I where I: Iterator {
    fn tap<U, F: Fn(&T) -> U>(self, op: F) -> (r: Tap<I, F>) {
        Tap { iter: self, f: op }
    }
}

/// A lazy sequence that yields the elements of `iter` unchanged, calling `f`
/// on each one just before it is yielded.
#[derive(Clone)]
#[must_use]
pub struct Tap<I, F> {
    iter: I,
    f: F,
}

impl<I, F> Tap<I, F> {
    /// The underlying sequence, in its current state.
    pub closed spec fn inner(&self) -> I {
        self.iter
    }

    /// The inspector called on each element.
    pub closed spec fn inspector(&self) -> F {
        self.f
    }
}

impl<I: Iterator, F> Tap<I, F> {
    /// Pulls the next element of the underlying sequence. When there is one,
    /// calls the inspector on it and returns it unchanged; when the underlying
    /// sequence is exhausted, returns `None` without calling the inspector.
    pub fn next<U>(&mut self) -> (r: Option<I::Item>)
        where F: Fn(&I::Item) -> U,
        requires
            forall|x: &I::Item| #[trigger] old(self).inspector().requires((x,)),
        ensures
            final(self).inspector() == old(self).inspector(),
            final(self).inner().obeys_prophetic_iter_laws() == old(self).inner().obeys_prophetic_iter_laws(),
            final(self).inner().obeys_prophetic_iter_laws() ==> (old(self).inner().decrease() is Some
                <==> final(self).inner().decrease() is Some),
            final(self).inner().obeys_prophetic_iter_laws() ==> ({
                if old(self).inner().remaining().len() > 0 {
                    &&& final(self).inner().remaining() == old(self).inner().remaining().drop_first()
                    &&& r == Some(old(self).inner().remaining()[0])
                } else {
                    &&& final(self).inner().remaining() == old(self).inner().remaining()
                    &&& r is None
                }
            }),
            final(self).inner().obeys_prophetic_iter_laws() && old(self).inner().remaining().len() > 0
                && final(self).inner().decrease() is Some ==> decreases_to!(
                old(self).inner().decrease()->0 => final(self).inner().decrease()->0),
            r matches Some(v) ==> inspected(old(self).inspector(), &v),
    {
        let item = self.iter.next();
        match item {
            Some(v) => {
                assert(old(self).inspector().requires((&v,)));
                (self.f)(&v);
                Some(v)
            },
            None => None,
        }
    }

    /// Pulls every element that is left, calling the inspector on each one in
    /// turn, and returns them unchanged in the order they were produced.
    pub fn collect_vec<U>(self) -> (r: Vec<I::Item>)
        where F: Fn(&I::Item) -> U,
        requires
            self.inner().obeys_prophetic_iter_laws(),
            self.inner().decrease() is Some,
            forall|x: &I::Item| #[trigger] self.inspector().requires((x,)),
        ensures
            r@ == self.inner().remaining(),
            forall|i: int| 0 <= i < r.len() ==> inspected(self.inspector(), &#[trigger] r@[i]),
    {
        let ghost items = self.inner().remaining();
        let ghost op = self.inspector();
        let mut tap = self;
        let mut out: Vec<I::Item> = Vec::new();
        loop
            invariant
                tap.inspector() == op,
                forall|x: &I::Item| #[trigger] op.requires((x,)),
                tap.inner().obeys_prophetic_iter_laws(),
                tap.inner().decrease() is Some,
                out@ + tap.inner().remaining() == items,
                forall|i: int| 0 <= i < out.len() ==> inspected(op, &#[trigger] out@[i]),
            ensures
                out@ == items,
                forall|i: int| 0 <= i < out.len() ==> inspected(op, &#[trigger] out@[i]),
            decreases tap.inner().decrease()->0,
        {
            let ghost before = out@;
            let ghost left = tap.inner().remaining();
            match tap.next() {
                Some(v) => {
                    out.push(v);
                    assert(out@ + tap.inner().remaining() =~= before + left);
                    assert forall|i: int| 0 <= i < out.len() implies inspected(op, &#[trigger] out@[i]) by {
                        if i < before.len() {
                            assert(out@[i] == before[i]);
                        }
                    }
                },
                None => {
                    assert(out@ =~= items);
                    break;
                },
            }
        }
        out
    }

    /// The bounds on the number of elements left, as the underlying sequence
    /// reports them.
    pub fn size_hint(&self) -> (usize, Option<usize>) {
        size_hint_of(&self.iter)
    }
}

/// Relies on `Iterator::size_hint`, which reports bounds on the number of
/// elements left. Its documentation does not promise that an implementation
/// keeps to them, so nothing is stated of the result.
#[verifier::external_body]
fn size_hint_of<I: Iterator>(iter: &I) -> (usize, Option<usize>) {
    iter.size_hint()
}

} // verus!
