//! The narrow interface through which pages are produced.
//!
//! A [`PageSource`] owns whatever state the production of a page needs and
//! yields content on demand.  Returning `None` is the single failure
//! sentinel for an index: it is read as a transient generation failure, not
//! as a statement that the index will never have content.

use vstd::prelude::*;

verus! {

/// A supplier of page content, consulted on cache misses.
///
/// Nothing is assumed about the result of `fetch`: two calls on the same
/// index may disagree, and every caller in this crate states what holds of
/// its own behaviour whatever `fetch` returns.
pub trait PageSource<T> {
    fn fetch(&mut self, index: usize) -> Option<T>;
}

/// The eager variant of a page source: every page is already materialized
/// in memory, and `fetch` merely indexes into the sequence.
pub struct VecPageSource<T> {
    pages: Vec<T>,
}

impl<T> View for VecPageSource<T> {
    type V = Seq<T>;

    /// The materialized pages, in order.
    closed spec fn view(&self) -> Seq<T> {
        self.pages@
    }
}

impl<T> VecPageSource<T> {
    pub fn new(pages: Vec<T>) -> (r: Self)
        ensures
            r@ == pages@,
    {
        Self { pages }
    }

    pub fn len(&self) -> (r: usize)
        ensures
            r == self@.len(),
    {
        self.pages.len()
    }
}

impl<T: Clone> PageSource<T> for VecPageSource<T> {
    /// Yields content exactly for the indices of the sequence, and leaves
    /// the sequence as it is.  What the content is — a clone of the stored
    /// page — is beyond what can be said of an arbitrary `Clone`.
    fn fetch(&mut self, index: usize) -> (r: Option<T>)
        ensures
            final(self)@ == old(self)@,
            (r is Some) <==> index < old(self)@.len(),
    {
        if index < self.pages.len() {
            Some(self.pages[index].clone())
        } else {
            None
        }
    }
}

} // verus!
