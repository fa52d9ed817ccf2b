//! Navigation over a fixed-length sequence of pages.
//!
//! [`Paginate`] is the eager variant: it walks a slice whose elements are
//! all materialized up front.  [`PaginateEmbedsLazily`] produces pages on
//! demand through a [`PageSource`] and keeps recent ones in a bounded
//! cache.  In both, the pointer always stays inside the sequence, and
//! every move past an end is refused rather than wrapped.

use vstd::prelude::*;

use crate::cache::{
    distinct_indices, evict_insert, has_index, refreshed, value_of, CacheEntry, PageCache,
};
use crate::source::PageSource;
use crate::NavError;

verus! {

/// A simple counter that simulates swiping pages over a slice.
pub struct Paginate<'a, T> {
    paginate_on: &'a [T],
    current_index: usize,
}

impl<'a, T> Paginate<'a, T> {
    /// The pages the counter walks.
    pub closed spec fn pages(&self) -> Seq<T> {
        self.paginate_on@
    }

    /// The current position of the counter.
    pub closed spec fn idx(&self) -> int {
        self.current_index as int
    }

    /// The counter always points at a page; it sits at 0 on an empty slice.
    pub open spec fn wf(&self) -> bool {
        if self.pages().len() == 0 {
            self.idx() == 0
        } else {
            0 <= self.idx() < self.pages().len()
        }
    }

    pub fn new(paginate_on: &'a [T]) -> (r: Self)
        ensures
            r.pages() == paginate_on@,
            r.idx() == 0,
            r.wf(),
    {
        Self { paginate_on, current_index: 0 }
    }

    pub fn max(&self) -> (r: usize)
        ensures
            r == self.pages().len(),
    {
        self.paginate_on.len()
    }

    pub fn current_idx(&self) -> (r: usize)
        ensures
            r == self.idx(),
    {
        self.current_index
    }

    pub fn current_page(&self) -> (r: Option<&'a T>)
        ensures
            self.idx() < self.pages().len() ==> r == Some(&self.pages()[self.idx()]),
            self.idx() >= self.pages().len() ==> r is None,
    {
        if self.current_index < self.paginate_on.len() {
            Some(&self.paginate_on[self.current_index])
        } else {
            None
        }
    }

    /// Increments the internal pointer by 1.
    /// At the last page (or on an empty slice) it does not move and returns `None`.
    pub fn next_page(&mut self) -> (r: Option<&'a T>)
        requires
            old(self).wf(),
        ensures
            final(self).wf(),
            final(self).pages() == old(self).pages(),
            old(self).idx() + 1 < old(self).pages().len() ==> {
                &&& final(self).idx() == old(self).idx() + 1
                &&& r == Some(&old(self).pages()[old(self).idx() + 1])
            },
            old(self).idx() + 1 >= old(self).pages().len() ==> {
                &&& final(self).idx() == old(self).idx()
                &&& r is None
            },
    {
        let len = self.paginate_on.len();
        if len == 0 {
            return None;
        }
        let next_index = self.current_index + 1;
        if len <= next_index {
            return None;
        }
        self.current_index = next_index;
        Some(&self.paginate_on[next_index])
    }

    /// Decrements the internal pointer by 1.
    /// At the first page it does not move and returns `None`.
    /// The bounds check precedes the arithmetic, so the pointer cannot wrap.
    pub fn previous_page(&mut self) -> (r: Option<&'a T>)
        requires
            old(self).wf(),
        ensures
            final(self).wf(),
            final(self).pages() == old(self).pages(),
            old(self).idx() == 0 ==> final(self).idx() == old(self).idx() && r is None,
            old(self).idx() > 0 ==> {
                &&& final(self).idx() == old(self).idx() - 1
                &&& r == Some(&old(self).pages()[old(self).idx() - 1])
            },
    {
        if self.current_index == 0 {
            return None;
        }
        let previous = self.current_index - 1;
        self.current_index = previous;
        Some(&self.paginate_on[previous])
    }

    /// Moves the pointer to the first page.
    pub fn first_page(&mut self) -> (r: Option<&'a T>)
        ensures
            final(self).pages() == old(self).pages(),
            final(self).idx() == 0,
            final(self).wf(),
            old(self).pages().len() > 0 ==> r == Some(&old(self).pages()[0]),
            old(self).pages().len() == 0 ==> r is None,
    {
        self.current_index = 0;
        if self.paginate_on.len() > 0 {
            Some(&self.paginate_on[0])
        } else {
            None
        }
    }

    /// Moves the pointer to the last page.
    /// On an empty slice it stays at 0 and returns `None`.
    pub fn last_page(&mut self) -> (r: Option<&'a T>)
        ensures
            final(self).pages() == old(self).pages(),
            final(self).wf(),
            old(self).pages().len() > 0 ==> {
                &&& final(self).idx() == old(self).pages().len() - 1
                &&& r == Some(&old(self).pages()[old(self).pages().len() - 1])
            },
            old(self).pages().len() == 0 ==> final(self).idx() == 0 && r is None,
    {
        if self.paginate_on.len() == 0 {
            self.current_index = 0;
            return None;
        }
        let last = self.paginate_on.len() - 1;
        self.current_index = last;
        Some(&self.paginate_on[last])
    }
}

/// A paginator that produces pages lazily through a [`PageSource`],
/// keeping recently visited pages in a bounded cache.
pub struct PaginateEmbedsLazily<T, G> {
    source: G,
    current_index: usize,
    length: usize,
    cache: PageCache<T>,
}

impl<T, G> PaginateEmbedsLazily<T, G> {
    /// The fixed number of pages of the sequence.
    pub closed spec fn total(&self) -> usize {
        self.length
    }

    /// The current position.
    pub closed spec fn idx(&self) -> usize {
        self.current_index
    }

    /// The resident cache entries, least recently used first.
    pub closed spec fn cache_model(&self) -> Seq<CacheEntry<T>> {
        self.cache.model()
    }

    /// The cache's fixed capacity.
    pub closed spec fn cache_cap(&self) -> usize {
        self.cache.cap()
    }

    /// The page source, as a value.
    pub closed spec fn src(&self) -> G {
        self.source
    }

    /// Whether a page for index `i` is resident in the cache.
    pub open spec fn cached(&self, i: usize) -> bool {
        has_index(self.cache_model(), i)
    }

    /// The position stays inside `[0, total)` whenever the sequence is
    /// nonempty, and the cache stays bounded with distinct indices.
    pub open spec fn wf(&self) -> bool {
        &&& self.cache_cap() >= 1
        &&& self.cache_model().len() <= self.cache_cap()
        &&& distinct_indices(self.cache_model())
        &&& self.total() == 0 ==> self.idx() == 0
        &&& self.total() > 0 ==> self.idx() < self.total()
    }
}

/// What every position-changing transition of [`PaginateEmbedsLazily`]
/// guarantees when it aims at index `at`: on success the position is `at`
/// and its page is resident; on failure nothing observable has changed and
/// the error is `NotFound`.  A hit cannot fail, leaves the source untouched
/// and only refreshes the recency of the entry; a generated page enters the
/// cache by evicting the least recently used entry first.
pub open spec fn nav_post<T, G>(
    pre: PaginateEmbedsLazily<T, G>,
    post: PaginateEmbedsLazily<T, G>,
    at: usize,
    r: Result<(), NavError>,
) -> bool {
    &&& post.total() == pre.total()
    &&& post.cache_cap() == pre.cache_cap()
    &&& (r is Ok ==> post.idx() == at && post.cached(at))
    &&& (r is Err ==> {
        &&& r == Err::<(), NavError>(NavError::NotFound)
        &&& post.idx() == pre.idx()
        &&& post.cache_model() == pre.cache_model()
    })
    &&& (pre.cached(at) ==> {
        &&& r is Ok
        &&& post.src() == pre.src()
        &&& post.cache_model() == refreshed(pre.cache_model(), at)
        &&& value_of(post.cache_model(), at) == value_of(pre.cache_model(), at)
    })
    &&& (!pre.cached(at) && r is Ok ==> post.cache_model() == evict_insert(
        pre.cache_model(),
        pre.cache_cap() as nat,
        at,
        value_of(post.cache_model(), at),
    ))
}

impl<T, G: PageSource<T>> PaginateEmbedsLazily<T, G> {
    /// A lazy paginator over `length` pages produced by `source`, with a
    /// cache bounded by `capacity`.
    pub fn new(length: usize, source: G, capacity: usize) -> (r: Self)
        requires
            capacity >= 1,
        ensures
            r.wf(),
            r.total() == length,
            r.idx() == 0,
            r.cache_model() == Seq::<CacheEntry<T>>::empty(),
            r.cache_cap() == capacity,
            r.src() == source,
    {
        Self { source, current_index: 0, length, cache: PageCache::new(capacity) }
    }

    pub fn len(&self) -> (r: usize)
        ensures
            r == self.total(),
    {
        self.length
    }

    pub fn is_empty(&self) -> (r: bool)
        ensures
            r == (self.total() == 0),
    {
        self.length == 0
    }

    pub fn current_idx(&self) -> (r: usize)
        ensures
            r == self.idx(),
    {
        self.current_index
    }

    /// The page at the current position, if it is resident in the cache.
    ///
    /// Every successful transition leaves the current page resident, so
    /// this returns content from the first successful transition on.
    pub fn current_page(&self) -> (r: Option<&T>)
        requires
            self.wf(),
        ensures
            match r {
                Some(v) => self.cached(self.idx())
                    && *v == value_of(self.cache_model(), self.idx()),
                None => !self.cached(self.idx()),
            },
    {
        if self.cache.contains(self.current_index) {
            Some(self.cache.get(self.current_index))
        } else {
            None
        }
    }

    /// Fetch the page for `at` through the cache and, only on success,
    /// move the position there.
    fn fetch_and_set(&mut self, at: usize) -> (r: Result<(), NavError>)
        requires
            old(self).wf(),
            at < old(self).total(),
        ensures
            final(self).wf(),
            nav_post(*old(self), *final(self), at, r),
    {
        match self.cache.get_or_generate(&mut self.source, at) {
            Ok(u) => {
                self.current_index = at;
                Ok(u)
            },
            Err(e) => Err(e),
        }
    }

    /// Moves to the next page and fetches it.
    /// At the last page (or on an empty sequence) nothing changes and
    /// `Boundary` is reported.
    pub fn next_page(&mut self) -> (r: Result<(), NavError>)
        requires
            old(self).wf(),
        ensures
            final(self).wf(),
            old(self).total() > 0 && old(self).idx() + 1 < old(self).total() ==> nav_post(
                *old(self),
                *final(self),
                (old(self).idx() + 1) as usize,
                r,
            ),
            old(self).total() == 0 || old(self).idx() + 1 >= old(self).total() ==> {
                &&& r == Err::<(), NavError>(NavError::Boundary)
                &&& *final(self) == *old(self)
            },
    {
        if self.length == 0 || self.current_index >= self.length - 1 {
            return Err(NavError::Boundary);
        }
        self.fetch_and_set(self.current_index + 1)
    }

    /// Moves to the previous page and fetches it.
    /// At the first page nothing changes and `Boundary` is reported; the
    /// bounds check precedes the arithmetic, so the position cannot wrap.
    pub fn previous_page(&mut self) -> (r: Result<(), NavError>)
        requires
            old(self).wf(),
        ensures
            final(self).wf(),
            old(self).idx() > 0 ==> nav_post(
                *old(self),
                *final(self),
                (old(self).idx() - 1) as usize,
                r,
            ),
            old(self).idx() == 0 ==> {
                &&& r == Err::<(), NavError>(NavError::Boundary)
                &&& *final(self) == *old(self)
            },
    {
        if self.current_index == 0 {
            return Err(NavError::Boundary);
        }
        self.fetch_and_set(self.current_index - 1)
    }

    /// Moves to the first page and fetches it.
    /// On an empty sequence there is no page to fetch: nothing changes and
    /// `NotFound` is reported.
    pub fn first_page(&mut self) -> (r: Result<(), NavError>)
        requires
            old(self).wf(),
        ensures
            final(self).wf(),
            old(self).total() > 0 ==> nav_post(*old(self), *final(self), 0, r),
            old(self).total() == 0 ==> {
                &&& r == Err::<(), NavError>(NavError::NotFound)
                &&& *final(self) == *old(self)
            },
    {
        if self.length == 0 {
            return Err(NavError::NotFound);
        }
        self.fetch_and_set(0)
    }

    /// Moves to the last page and fetches it.
    /// On an empty sequence there is no page to fetch: nothing changes and
    /// `NotFound` is reported.
    pub fn last_page(&mut self) -> (r: Result<(), NavError>)
        requires
            old(self).wf(),
        ensures
            final(self).wf(),
            old(self).total() > 0 ==> nav_post(
                *old(self),
                *final(self),
                (old(self).total() - 1) as usize,
                r,
            ),
            old(self).total() == 0 ==> {
                &&& r == Err::<(), NavError>(NavError::NotFound)
                &&& *final(self) == *old(self)
            },
    {
        if self.length == 0 {
            return Err(NavError::NotFound);
        }
        self.fetch_and_set(self.length - 1)
    }

    /// Moves to an arbitrary page and fetches it.
    /// A target outside `[0, total)` changes nothing and is reported as
    /// `OutOfRange` together with the valid inclusive bounds; on an empty
    /// sequence every target is reported as `NotFound`.
    pub fn jump_to(&mut self, to: usize) -> (r: Result<(), NavError>)
        requires
            old(self).wf(),
        ensures
            final(self).wf(),
            to < old(self).total() ==> nav_post(*old(self), *final(self), to, r),
            to >= old(self).total() && old(self).total() > 0 ==> {
                &&& r == Err::<(), NavError>(NavError::OutOfRange {
                    min: 0,
                    max: (old(self).total() - 1) as usize,
                })
                &&& *final(self) == *old(self)
            },
            old(self).total() == 0 ==> {
                &&& r == Err::<(), NavError>(NavError::NotFound)
                &&& *final(self) == *old(self)
            },
    {
        if self.length == 0 {
            return Err(NavError::NotFound);
        }
        if to >= self.length {
            return Err(NavError::OutOfRange { min: 0, max: self.length - 1 });
        }
        self.fetch_and_set(to)
    }
}

} // verus!
