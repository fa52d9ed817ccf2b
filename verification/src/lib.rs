//! A verified engine for presenting a long, indexed sequence of pages to a
//! single user through an interactive session.
//!
//! Pages are expensive to produce, so they are generated lazily through a
//! [`source::PageSource`] and kept in a bounded, recency-ordered
//! [`cache::PageCache`].  Navigation over the sequence is a small state
//! machine with strict bounds ([`paginate`]), and a per-session event loop
//! with idle-timeout-driven termination is modelled as a pure transition
//! function in [`session`].

use vstd::prelude::*;

pub mod cache;
pub mod closest;
pub mod digits;
pub mod page_input;
pub mod paginate;
pub mod session;
pub mod source;
pub mod urls;

verus! {

/// The outcome of a navigation step that did not produce a page.
///
/// `Boundary` is not an error: it reports an attempt to move past the first
/// or last page, which leaves the position unchanged.  `NotFound` means the
/// page generator produced no content for a structurally valid index; the
/// failure is treated as transient and the position is left unchanged.
/// `OutOfRange` reports a jump target outside `[0, length)` together with
/// the valid inclusive bounds.
#[derive(Clone, Copy, PartialEq, Eq, Structural, Debug)]
pub enum NavError {
    Boundary,
    NotFound,
    OutOfRange { min: usize, max: usize },
}

} // verus!
