//! The libraries a module loader keeps open, shared with the modules that
//! were loaded from them.
use vstd::prelude::*;
use std::sync::Arc;
use crate::dyn_arc::{arc_clone, arc_strong_count, arc_weak_count};

verus! {

/// Whether an entry seen with these (strong, weak) reference counts is held
/// by the cache alone.
pub open spec fn held_by_cache_only(counts: (usize, usize)) -> bool {
    counts.0 == 1 && counts.1 == 0
}

/// The entries of `items` that some other holder still uses, in their order:
/// the entry at position `i` is dropped exactly when `counts[i]` shows that
/// the cache holds it alone.
pub open spec fn entries_in_use<T>(items: Seq<T>, counts: Seq<(usize, usize)>) -> Seq<T>
    decreases items.len(),
{
    if items.len() == 0 {
        Seq::empty()
    } else {
        let last = items.len() - 1;
        let rest = entries_in_use(items.take(last), counts);
        if held_by_cache_only(counts[last]) {
            rest
        } else {
            rest.push(items[last])
        }
    }
}

/// An entry whose strong count is not 1, or whose weak count is not 0, is
/// kept.
pub proof fn lemma_shared_entries_stay<T>(items: Seq<T>, counts: Seq<(usize, usize)>, k: int)
    requires
        0 <= k < items.len(),
        !(counts[k].0 == 1 && counts[k].1 == 0),
    ensures
        entries_in_use(items, counts).contains(items[k]),
    decreases items.len(),
{
    let last = items.len() - 1;
    let rest = entries_in_use(items.take(last), counts);
    if k == last {
        assert(entries_in_use(items, counts) == rest.push(items[last]));
        assert(rest.push(items[last])[rest.len() as int] == items[k]);
    } else {
        lemma_shared_entries_stay(items.take(last), counts, k);
        assert(items.take(last)[k] == items[k]);
        let j = rest.index_of(items[k]);
        if !held_by_cache_only(counts[last]) {
            assert(rest.push(items[last])[j] == items[k]);
        }
    }
}

/// Where every entry has strong count 1 and weak count 0, nothing is kept;
/// and never more entries are kept than there were.
pub proof fn lemma_unshared_entries_go<T>(items: Seq<T>, counts: Seq<(usize, usize)>)
    ensures
        entries_in_use(items, counts).len() <= items.len(),
        (forall|k: int| 0 <= k < items.len() ==> #[trigger] counts[k] == (1usize, 0usize))
            ==> entries_in_use(items, counts).len() == 0,
    decreases items.len(),
{
    if items.len() > 0 {
        let last = items.len() - 1;
        lemma_unshared_entries_go(items.take(last), counts);
        if forall|k: int| 0 <= k < items.len() ==> #[trigger] counts[k] == (1usize, 0usize) {
            assert(counts[last] == (1usize, 0usize));
            assert forall|k: int| 0 <= k < items.take(last).len() implies #[trigger] counts[k] == (1usize, 0usize) by {}
        }
    }
}

/// Keeps the entries whose reference counts, observed at the same position
/// in `counts`, show another holder.
pub fn retain_in_use<T>(items: Vec<T>, counts: &[(usize, usize)]) -> (kept: Vec<T>)
    requires
        items@.len() == counts@.len(),
    ensures
        kept@ == entries_in_use(items@, counts@),
{
    let ghost orig = items@;
    let mut items = items;
    let mut kept: Vec<T> = Vec::new();
    let mut i: usize = 0;
    while items.len() > 0
        invariant
            orig.len() == counts@.len(),
            i + items@.len() == orig.len(),
            items@ == orig.skip(i as int),
            kept@ == entries_in_use(orig.take(i as int), counts@),
        decreases items@.len(),
    {
        let x = items.remove(0);
        proof {
            assert(orig.take(i + 1).take(i as int) =~= orig.take(i as int));
            assert(orig.skip(i as int)[0] == orig[i as int]);
        }
        let (strong, weak) = counts[i];
        if !(strong == 1 && weak == 0) {
            kept.push(x);
        }
        i = i + 1;
        proof {
            assert(items@ =~= orig.skip(i as int));
        }
    }
    assert(orig.take(orig.len() as int) =~= orig);
    kept
}

/// `counts` are the strong and the weak count that `Arc::strong_count` and
/// `Arc::weak_count` gave back for `lib`.
pub closed spec fn counts_read_from<T>(lib: Arc<T>, counts: (usize, usize)) -> bool {
    &&& call_ensures(arc_strong_count::<T>, (&lib,), counts.0)
    &&& call_ensures(arc_weak_count::<T>, (&lib,), counts.1)
}

/// The libraries a loader has opened.
pub struct LibraryCache<T> {
    libs: Vec<Arc<T>>,
}

impl<T> LibraryCache<T> {
    /// The cached libraries, oldest first.
    pub closed spec fn entries(&self) -> Seq<Arc<T>> {
        self.libs@
    }

    /// Creates an empty cache.
    pub fn new() -> (c: Self)
        ensures
            c.entries() == Seq::<Arc<T>>::empty(),
    {
        LibraryCache { libs: Vec::new() }
    }

    /// Number of cached libraries.
    pub fn len(&self) -> (n: usize)
        ensures
            n == self.entries().len(),
    {
        self.libs.len()
    }

    /// Keeps a newly opened library in the cache and hands out a shared
    /// pointer to it.
    pub fn insert(&mut self, library: T) -> (lib: Arc<T>)
        ensures
            *lib == library,
            final(self).entries() == old(self).entries().push(lib),
    {
        let lib = Arc::new(library);
        self.libs.push(arc_clone(&lib));
        lib
    }

    /// Drops the libraries that are held by the cache alone.
    ///
    /// The reference counts are read once per entry; an entry stays exactly
    /// when its counts show another strong or weak holder.
    pub fn evict_module_cache(&mut self)
        ensures
            exists|counts: Seq<(usize, usize)>|
                {
                    &&& counts.len() == old(self).entries().len()
                    &&& forall|k: int| 0 <= k < counts.len() ==> #[trigger] counts[k].0 >= 1
                    &&& forall|k: int| 0 <= k < counts.len()
                        ==> counts_read_from(old(self).entries()[k], #[trigger] counts[k])
                    &&& final(self).entries() == entries_in_use(old(self).entries(), counts)
                },
    {
        let mut counts: Vec<(usize, usize)> = Vec::new();
        let mut i: usize = 0;
        while i < self.libs.len()
            invariant
                i <= self.libs@.len(),
                counts@.len() == i,
                forall|k: int| 0 <= k < i ==> #[trigger] counts@[k].0 >= 1,
                forall|k: int| 0 <= k < i ==> counts_read_from(self.libs@[k], #[trigger] counts@[k]),
                self.libs@ == old(self).entries(),
            decreases self.libs@.len() - i,
        {
            let strong_count = arc_strong_count::<T>;
            let weak_count = arc_weak_count::<T>;
            let strong = strong_count(&self.libs[i]);
            let weak = weak_count(&self.libs[i]);
            counts.push((strong, weak));
            i = i + 1;
        }
        let mut libs: Vec<Arc<T>> = Vec::new();
        std::mem::swap(&mut libs, &mut self.libs);
        self.libs = retain_in_use(libs, counts.as_slice());
        assert(counts@.len() == old(self).entries().len());
    }
}

} // verus!
