//! A bounded, recency-ordered page store.
//!
//! [`PageCache`] keeps at most `capacity` generated pages.  Entries are held
//! in order of last access, least recently used first, so eviction always
//! removes the front entry and a refreshed or newly inserted entry moves to
//! the back.  Ties between equally old entries cannot arise: the order is a
//! total one, and a new entry enters behind everything already present.

use vstd::prelude::*;

use crate::source::PageSource;
use crate::NavError;

verus! {

/// One resident page: the index it was generated for and its content.
/// Recency is positional: an entry's place in the store's order of last
/// access is its position in the entry sequence.
pub struct CacheEntry<T> {
    pub index: usize,
    pub value: T,
}

/// Whether some entry of `s` holds page index `i`.
pub open spec fn has_index<T>(s: Seq<CacheEntry<T>>, i: usize) -> bool {
    exists|p: int| #![trigger s[p]] 0 <= p < s.len() && s[p].index == i
}

/// The position of the entry holding page index `i`.
pub open spec fn pos_of<T>(s: Seq<CacheEntry<T>>, i: usize) -> int {
    choose|p: int| #![trigger s[p]] 0 <= p < s.len() && s[p].index == i
}

/// No two entries hold the same page index.
pub open spec fn distinct_indices<T>(s: Seq<CacheEntry<T>>) -> bool {
    forall|j: int, k: int| #![trigger s[j], s[k]]
        0 <= j < k < s.len() ==> s[j].index != s[k].index
}

/// The content stored for page index `i`.
pub open spec fn value_of<T>(s: Seq<CacheEntry<T>>, i: usize) -> T {
    s[pos_of(s, i)].value
}

/// The store after a hit on page index `i`: the entry moves to the back,
/// everything else keeps its relative order.
pub open spec fn refreshed<T>(s: Seq<CacheEntry<T>>, i: usize) -> Seq<CacheEntry<T>> {
    s.remove(pos_of(s, i)).push(s[pos_of(s, i)])
}

/// The store after a miss on page index `i` produced `v`: the least
/// recently used entry leaves first when the store is at capacity `cap`,
/// and the new entry enters at the back.
pub open spec fn evict_insert<T>(
    s: Seq<CacheEntry<T>>,
    cap: nat,
    i: usize,
    v: T,
) -> Seq<CacheEntry<T>> {
    if s.len() < cap {
        s.push(CacheEntry { index: i, value: v })
    } else {
        s.drop_first().push(CacheEntry { index: i, value: v })
    }
}

/// In a store with distinct indices, the position of an index is the one
/// place where it occurs.
proof fn lemma_pos_unique<T>(s: Seq<CacheEntry<T>>, i: usize, p: int)
    requires
        distinct_indices(s),
        0 <= p < s.len(),
        s[p].index == i,
    ensures
        pos_of(s, i) == p,
{
    assert(has_index(s, i));
    let q = pos_of(s, i);
    if q != p {
        if q < p {
            assert(s[q].index != s[p].index);
        } else {
            assert(s[p].index != s[q].index);
        }
    }
}

/// What a refresh leaves behind: the same entries, still distinct, with
/// the refreshed one now at the back.
proof fn lemma_refreshed_props<T>(s: Seq<CacheEntry<T>>, i: usize)
    requires
        distinct_indices(s),
        has_index(s, i),
    ensures
        ({
            let t = refreshed(s, i);
            &&& t.len() == s.len()
            &&& distinct_indices(t)
            &&& pos_of(t, i) == t.len() - 1
            &&& has_index(t, i)
            &&& value_of(t, i) == value_of(s, i)
            &&& forall|x: usize| #[trigger] has_index(t, x) <==> has_index(s, x)
        }),
{
    let t = refreshed(s, i);
    let q = pos_of(s, i);
    assert forall|j: int, k: int| 0 <= j < k < t.len() implies
        (#[trigger] t[j]).index != (#[trigger] t[k]).index by {
        if k < t.len() - 1 {
            let j0 = if j < q { j } else { j + 1 };
            let k0 = if k < q { k } else { k + 1 };
            assert(s[j0].index != s[k0].index);
        } else {
            let j0 = if j < q { j } else { j + 1 };
            assert(t[k] == s[q]);
            if j0 < q {
                assert(s[j0].index != s[q].index);
            } else {
                assert(s[q].index != s[j0].index);
            }
        }
    }
    assert(t[t.len() - 1].index == i);
    lemma_pos_unique(t, i, t.len() - 1);
    assert forall|x: usize| #[trigger] has_index(t, x) implies has_index(s, x) by {
        let p2 = pos_of(t, x);
        if p2 < t.len() - 1 {
            let p0 = if p2 < q { p2 } else { p2 + 1 };
            assert(s[p0].index == x);
        } else {
            assert(s[q].index == x);
        }
    }
    assert forall|x: usize| has_index(s, x) implies #[trigger] has_index(t, x) by {
        let p2 = pos_of(s, x);
        if p2 == q {
            assert(t[t.len() - 1].index == x);
        } else if p2 < q {
            assert(t[p2].index == x);
        } else {
            assert(t[p2 - 1].index == x);
        }
    }
}

/// Two hits are one: refreshing the entry that is already the most recent
/// changes nothing, so with no intervening miss the store after asking for
/// a resident page twice is the store after asking once.
pub proof fn lemma_refresh_idempotent<T>(s: Seq<CacheEntry<T>>, i: usize)
    requires
        distinct_indices(s),
        has_index(s, i),
    ensures
        refreshed(refreshed(s, i), i) == refreshed(s, i),
{
    lemma_refreshed_props(s, i);
    let t = refreshed(s, i);
    lemma_refreshed_props(t, i);
    assert(refreshed(t, i) =~= t);
}

/// A bounded store mapping page index to generated content, evicting the
/// least recently used entry when full.
pub struct PageCache<T> {
    entries: Vec<CacheEntry<T>>,
    capacity: usize,
}

impl<T> PageCache<T> {
    /// The resident entries, least recently used first.
    pub closed spec fn model(&self) -> Seq<CacheEntry<T>> {
        self.entries@
    }

    /// The fixed bound on how many entries may be resident.
    pub closed spec fn cap(&self) -> usize {
        self.capacity
    }

    /// Whether a page for index `i` is resident.
    pub open spec fn has(&self, i: usize) -> bool {
        has_index(self.model(), i)
    }

    /// The store never exceeds its capacity and holds each index at most
    /// once.
    pub open spec fn wf(&self) -> bool {
        &&& self.cap() >= 1
        &&& self.model().len() <= self.cap()
        &&& distinct_indices(self.model())
    }

    pub fn new(capacity: usize) -> (r: Self)
        requires
            capacity >= 1,
        ensures
            r.wf(),
            r.cap() == capacity,
            r.model() == Seq::<CacheEntry<T>>::empty(),
    {
        let r = Self { entries: Vec::new(), capacity };
        proof {
            assert(r.model() =~= Seq::<CacheEntry<T>>::empty());
        }
        r
    }

    pub fn len(&self) -> (r: usize)
        ensures
            r == self.model().len(),
    {
        self.entries.len()
    }

    pub fn capacity(&self) -> (r: usize)
        ensures
            r == self.cap(),
    {
        self.capacity
    }

    /// Linear scan for the entry holding `index`.
    fn find(&self, index: usize) -> (r: Option<usize>)
        requires
            self.wf(),
        ensures
            match r {
                Some(p) => {
                    &&& self.has(index)
                    &&& 0 <= p < self.model().len()
                    &&& self.model()[p as int].index == index
                    &&& p == pos_of(self.model(), index)
                },
                None => !self.has(index),
            },
    {
        let n = self.entries.len();
        let mut j: usize = 0;
        while j < n
            invariant
                self.wf(),
                n == self.model().len(),
                j <= n,
                forall|p: int| #![trigger self.model()[p]]
                    0 <= p < j ==> self.model()[p].index != index,
            decreases n - j,
        {
            if self.entries[j].index == index {
                proof {
                    lemma_pos_unique(self.model(), index, j as int);
                }
                return Some(j);
            }
            j += 1;
        }
        None
    }

    pub fn contains(&self, index: usize) -> (r: bool)
        requires
            self.wf(),
        ensures
            r == self.has(index),
    {
        self.find(index).is_some()
    }

    /// The content resident for `index`.
    pub fn get(&self, index: usize) -> (r: &T)
        requires
            self.wf(),
            self.has(index),
        ensures
            *r == value_of(self.model(), index),
    {
        let r = self.find(index);
        match r {
            Some(p) => &self.entries[p].value,
            None => {
                proof {
                    assert(false);
                }
                &self.entries[0].value
            },
        }
    }

    /// Refresh the recency of the resident entry for `index`.
    fn touch(&mut self, index: usize)
        requires
            old(self).wf(),
            old(self).has(index),
        ensures
            final(self).wf(),
            final(self).cap() == old(self).cap(),
            final(self).model() == refreshed(old(self).model(), index),
            final(self).has(index),
            value_of(final(self).model(), index) == value_of(old(self).model(), index),
            forall|x: usize| #[trigger] final(self).has(x) <==> old(self).has(x),
    {
        let ghost s = self.model();
        let p = match self.find(index) {
            Some(p) => p,
            None => 0,
        };
        let e = self.entries.remove(p);
        self.entries.push(e);
        proof {
            assert(self.model() =~= refreshed(s, index));
            lemma_refreshed_props(s, index);
        }
    }

    /// Insert content for an absent `index`, evicting the least recently
    /// used entry first when the store is at capacity.
    fn insert(&mut self, index: usize, value: T)
        requires
            old(self).wf(),
            !old(self).has(index),
        ensures
            final(self).wf(),
            final(self).cap() == old(self).cap(),
            final(self).model() == evict_insert(
                old(self).model(),
                old(self).cap() as nat,
                index,
                value,
            ),
            final(self).has(index),
            value_of(final(self).model(), index) == value,
    {
        let ghost s = self.model();
        if self.entries.len() == self.capacity {
            self.entries.remove(0);
        }
        self.entries.push(CacheEntry { index, value });
        proof {
            let t = self.model();
            assert(t =~= evict_insert(s, self.cap() as nat, index, value));
            let off: int = if s.len() < self.cap() { 0 } else { 1 };
            assert forall|j: int, k: int| 0 <= j < k < t.len() implies
                (#[trigger] t[j]).index != (#[trigger] t[k]).index by {
                if k < t.len() - 1 {
                    assert(s[j + off].index != s[k + off].index);
                } else {
                    assert(t[j] == s[j + off]);
                    assert(has_index(s, t[j].index));
                }
            }
            assert(t[t.len() - 1].index == index);
            assert(has_index(t, index));
            lemma_pos_unique(t, index, t.len() - 1);
            assert(value_of(t, index) == value);
        }
    }

    /// Return the page for `index` from the store, or generate it through
    /// `source` on a miss.
    ///
    /// On a hit the recency of the entry is refreshed, its content is
    /// returned unchanged and the source is not consulted.  On a miss the
    /// source is consulted once: content is inserted (evicting the least
    /// recently used entry first if the store is full), while a generation
    /// failure leaves the store exactly as it was and reports `NotFound`.
    pub fn get_or_generate<G: PageSource<T>>(
        &mut self,
        source: &mut G,
        index: usize,
    ) -> (r: Result<(), NavError>)
        requires
            old(self).wf(),
        ensures
            final(self).wf(),
            final(self).cap() == old(self).cap(),
            old(self).has(index) ==> {
                &&& r is Ok
                &&& *final(source) == *old(source)
                &&& final(self).model() == refreshed(old(self).model(), index)
                &&& value_of(final(self).model(), index)
                    == value_of(old(self).model(), index)
                &&& forall|x: usize| #[trigger] final(self).has(x) <==> old(self).has(x)
            },
            !old(self).has(index) ==> match r {
                Ok(u) => final(self).model() == evict_insert(
                    old(self).model(),
                    old(self).cap() as nat,
                    index,
                    value_of(final(self).model(), index),
                ),
                Err(e) => {
                    &&& e == NavError::NotFound
                    &&& final(self).model() == old(self).model()
                },
            },
            r is Ok ==> final(self).has(index),
            r is Err ==> final(self).model() == old(self).model(),
    {
        if self.contains(index) {
            self.touch(index);
            Ok(())
        } else {
            match source.fetch(index) {
                Some(v) => {
                    self.insert(index, v);
                    Ok(())
                },
                None => Err(NavError::NotFound),
            }
        }
    }
}

/// The store reached by generating pages for `items` in order, starting
/// from an empty store of capacity `cap`, when every request misses.
pub open spec fn fill<T>(cap: nat, items: Seq<(usize, T)>) -> Seq<CacheEntry<T>>
    decreases items.len(),
{
    if items.len() == 0 {
        Seq::empty()
    } else {
        evict_insert(fill(cap, items.drop_last()), cap, items.last().0, items.last().1)
    }
}

/// No two requested pages share an index.
pub open spec fn distinct_requests<T>(items: Seq<(usize, T)>) -> bool {
    forall|j: int, k: int| #![trigger items[j], items[k]]
        0 <= j < k < items.len() ==> items[j].0 != items[k].0
}

/// While the store has room, filling keeps every request, in order.
proof fn lemma_fill_under_cap<T>(cap: nat, items: Seq<(usize, T)>)
    requires
        items.len() <= cap,
    ensures
        fill(cap, items).len() == items.len(),
        forall|j: int| #![trigger fill(cap, items)[j]]
            0 <= j < items.len() ==> fill(cap, items)[j]
                == (CacheEntry { index: items[j].0, value: items[j].1 }),
    decreases items.len(),
{
    if items.len() > 0 {
        lemma_fill_under_cap(cap, items.drop_last());
    }
}

/// Requesting one more distinct page than the store can hold evicts
/// exactly the least recently used page: the one requested first.  Every
/// later request stays resident, so a renewed request for the first page
/// would miss and reach the generator again.
pub proof fn lemma_fill_evicts_first<T>(cap: nat, items: Seq<(usize, T)>)
    requires
        cap >= 1,
        items.len() == cap + 1,
        distinct_requests(items),
    ensures
        !has_index(fill(cap, items), items[0].0),
        forall|j: int| 1 <= j < items.len() ==> has_index(fill(cap, items), #[trigger] items[j].0),
{
    let head = items.drop_last();
    lemma_fill_under_cap(cap, head);
    let s = fill(cap, head);
    let t = fill(cap, items);
    assert(t == evict_insert(s, cap, items.last().0, items.last().1));
    assert(t =~= s.drop_first().push(CacheEntry { index: items.last().0, value: items.last().1 }));
    assert forall|j: int| 1 <= j < items.len() implies
        has_index(t, #[trigger] items[j].0) by {
        if j < items.len() - 1 {
            assert(t[j - 1] == s[j]);
            assert(t[j - 1].index == items[j].0);
        } else {
            assert(t[t.len() - 1].index == items[j].0);
        }
    }
    if has_index(t, items[0].0) {
        let p = pos_of(t, items[0].0);
        if p < t.len() - 1 {
            assert(t[p] == s[p + 1]);
            assert(items[p + 1].0 == items[0].0);
        } else {
            assert(items[items.len() - 1].0 == items[0].0);
        }
    }
}

} // verus!
