//! The path cache: every path of the registry held in memory, found by
//! the pair of its chains in either order and selected by tag.
//!
//! A cache is filled once, by a build (see [`crate::builder`]), and then
//! only read. It keeps its paths in the order in which they were first put
//! in; the key of a path is the pair of
//! its two chain names in the order of strings, and no key is held twice.

use crate::locator::{canonical_pair, lemma_canonical_pair, ordered};
use crate::paths::{path_matches, IBCPath, IBCPathView, Tag, TagView};
use crate::text::{eq, precedes};
use vstd::prelude::*;

verus! {

/// A path as the cache holds it: under the canonical pair of its chains.
#[derive(Debug, PartialEq, Eq)]
pub struct CachedPath {
    pub key: (String, String),
    pub descriptor: IBCPath,
}

/// The mathematical content of [`CachedPath`].
pub struct CachedPathView {
    pub key: (Seq<char>, Seq<char>),
    pub descriptor: IBCPathView,
}

impl DeepView for CachedPath {
    type V = CachedPathView;

    open spec fn deep_view(&self) -> CachedPathView {
        CachedPathView {
            key: (self.key.0@, self.key.1@),
            descriptor: self.descriptor.deep_view(),
        }
    }
}

/// What every cache satisfies: each key is in the order of strings, and
/// no key is held twice.
pub open spec fn well_formed(held: Seq<CachedPathView>) -> bool {
    &&& forall|i: int| 0 <= i < held.len() ==> precedes(#[trigger] held[i].key.0, held[i].key.1)
    &&& forall|i: int, j: int|
        0 <= i < j < held.len() ==> (#[trigger] held[i]).key != (#[trigger] held[j]).key
}

/// Whether a path is held under `key`.
pub open spec fn holds(held: Seq<CachedPathView>, key: (Seq<char>, Seq<char>)) -> bool {
    exists|i: int| 0 <= i < held.len() && (#[trigger] held[i]).key == key
}

/// A position at which `key` is held, where it is held at all.
pub open spec fn slot(held: Seq<CachedPathView>, key: (Seq<char>, Seq<char>)) -> int {
    choose|i: int| 0 <= i < held.len() && (#[trigger] held[i]).key == key
}

/// The path held under `key`, if any.
pub open spec fn lookup(held: Seq<CachedPathView>, key: (Seq<char>, Seq<char>)) -> Option<
    IBCPathView,
> {
    if holds(held, key) {
        Some(held[slot(held, key)].descriptor)
    } else {
        None
    }
}

/// The cache after `descriptor` is put in under `key`: it takes the place
/// of the path held under that key, or comes last where there is none.
pub open spec fn stored(
    held: Seq<CachedPathView>,
    key: (Seq<char>, Seq<char>),
    descriptor: IBCPathView,
) -> Seq<CachedPathView> {
    if holds(held, key) {
        held.update(slot(held, key), CachedPathView { key, descriptor })
    } else {
        held.push(CachedPathView { key, descriptor })
    }
}

/// The paths of the cache that have at least one channel meeting `tag`,
/// in the order of the cache.
pub open spec fn selected(held: Seq<CachedPathView>, tag: TagView) -> Seq<IBCPathView> {
    held.filter(|e: CachedPathView| path_matches(e.descriptor, tag)).map_values(
        |e: CachedPathView| e.descriptor,
    )
}

/// In a well-formed cache a key is held at one position only.
pub proof fn lemma_slot_unique(held: Seq<CachedPathView>, key: (Seq<char>, Seq<char>), i: int)
    requires
        well_formed(held),
        0 <= i < held.len(),
        held[i].key == key,
    ensures
        holds(held, key),
        slot(held, key) == i,
        lookup(held, key) == Some(held[i].descriptor),
{
}

/// Putting a path in under an ordered key keeps the cache well formed.
/// Afterwards that key yields the path that was put in, and every other
/// key yields what it did before.
pub proof fn lemma_stored(
    held: Seq<CachedPathView>,
    key: (Seq<char>, Seq<char>),
    descriptor: IBCPathView,
)
    requires
        well_formed(held),
        precedes(key.0, key.1),
    ensures
        well_formed(stored(held, key, descriptor)),
        lookup(stored(held, key, descriptor), key) == Some(descriptor),
        forall|other: (Seq<char>, Seq<char>)|
            other != key ==> lookup(stored(held, key, descriptor), other) == lookup(held, other),
{
    let after = stored(held, key, descriptor);
    if holds(held, key) {
        assert forall|i: int| 0 <= i < after.len() implies (#[trigger] after[i]).key
            == held[i].key by {}
        lemma_slot_unique(after, key, slot(held, key));
        assert forall|other: (Seq<char>, Seq<char>)| other != key implies lookup(after, other)
            == lookup(held, other) by {
            lemma_same_keys(held, after, other);
        }
    } else {
        assert forall|i: int| 0 <= i < held.len() implies #[trigger] after[i] == held[i] by {}
        lemma_slot_unique(after, key, held.len() as int);
        assert forall|other: (Seq<char>, Seq<char>)| other != key implies lookup(after, other)
            == lookup(held, other) by {
            if holds(held, other) {
                lemma_slot_unique(held, other, slot(held, other));
                lemma_slot_unique(after, other, slot(held, other));
            }
        }
    }
}

/// Two well-formed caches that hold the same keys at the same positions,
/// and the same path wherever the key is `other`, yield the same for
/// `other`.
proof fn lemma_same_keys(
    before: Seq<CachedPathView>,
    after: Seq<CachedPathView>,
    other: (Seq<char>, Seq<char>),
)
    requires
        well_formed(before),
        well_formed(after),
        before.len() == after.len(),
        forall|i: int| 0 <= i < before.len() ==> (#[trigger] after[i]).key == before[i].key,
        forall|i: int|
            0 <= i < before.len() && before[i].key == other ==> (#[trigger] after[i]).descriptor
                == before[i].descriptor,
    ensures
        lookup(after, other) == lookup(before, other),
{
    if holds(before, other) {
        lemma_slot_unique(before, other, slot(before, other));
        lemma_slot_unique(after, other, slot(before, other));
    }
}

/// How `selected` grows with one more path at the end of a cache.
pub proof fn lemma_selected_push(held: Seq<CachedPathView>, entry: CachedPathView, tag: TagView)
    ensures
        selected(held.push(entry), tag) == if path_matches(entry.descriptor, tag) {
            selected(held, tag).push(entry.descriptor)
        } else {
            selected(held, tag)
        },
{
    let keep = |e: CachedPathView| path_matches(e.descriptor, tag);
    Seq::lemma_filter_push(held, entry, keep);
}

/// Every selected path has a channel that meets the tag and is held by
/// the cache; and every held path with such a channel is selected.
pub proof fn lemma_selected_exactly(held: Seq<CachedPathView>, tag: TagView)
    ensures
        forall|k: int|
            0 <= k < selected(held, tag).len() ==> path_matches(
                #[trigger] selected(held, tag)[k],
                tag,
            ) && exists|i: int|
                0 <= i < held.len() && (#[trigger] held[i]).descriptor == selected(held, tag)[k],
        forall|i: int|
            0 <= i < held.len() && path_matches((#[trigger] held[i]).descriptor, tag)
                ==> selected(held, tag).contains(held[i].descriptor),
{
    let keep = |e: CachedPathView| path_matches(e.descriptor, tag);
    let kept = held.filter(keep);
    assert forall|k: int| 0 <= k < selected(held, tag).len() implies path_matches(
        #[trigger] selected(held, tag)[k],
        tag,
    ) && exists|i: int|
        0 <= i < held.len() && (#[trigger] held[i]).descriptor == selected(held, tag)[k] by {
        Seq::lemma_filter_pred(held, keep, k);
        Seq::lemma_filter_contains_rev(held, keep, kept[k]);
    }
    assert forall|i: int|
        0 <= i < held.len() && path_matches((#[trigger] held[i]).descriptor, tag) implies selected(
        held,
        tag,
    ).contains(held[i].descriptor) by {
        Seq::lemma_filter_contains(held, keep, i);
        let k = choose|k: int| 0 <= k < kept.len() && kept[k] == held[i];
        assert(selected(held, tag)[k] == held[i].descriptor);
    }
}

/// Every path of the registry that could be fetched, held in memory.
#[derive(Debug, PartialEq, Eq)]
pub struct PathCache {
    entries: Vec<CachedPath>,
}

impl View for PathCache {
    type V = Seq<CachedPathView>;

    closed spec fn view(&self) -> Seq<CachedPathView> {
        self.entries.deep_view()
    }
}

impl PathCache {
    #[verifier::type_invariant]
    spec fn sound(self) -> bool {
        well_formed(self.entries.deep_view())
    }

    /// A cache that holds nothing.
    pub fn new() -> (cache: Self)
        ensures
            cache@ == Seq::<CachedPathView>::empty(),
            well_formed(cache@),
    {
        PathCache { entries: Vec::new() }
    }

    /// How many paths the cache holds.
    pub fn len(&self) -> (count: usize)
        ensures
            count == self@.len(),
            well_formed(self@),
    {
        proof {
            use_type_invariant(self);
        }
        self.entries.len()
    }

    /// The position at which the ordered pair `(lo, hi)` is held.
    fn position(&self, lo: &str, hi: &str) -> (at: Option<usize>)
        ensures
            well_formed(self@),
            match at {
                Some(i) => i < self@.len() && self@[i as int].key == (lo@, hi@) && holds(
                    self@,
                    (lo@, hi@),
                ) && slot(self@, (lo@, hi@)) == i,
                None => !holds(self@, (lo@, hi@)),
            },
    {
        proof {
            use_type_invariant(self);
        }
        let mut i: usize = 0;
        while i < self.entries.len()
            invariant
                i <= self.entries.len(),
                well_formed(self@),
                self@ == self.entries.deep_view(),
                forall|j: int| 0 <= j < i ==> (#[trigger] self@[j]).key != (lo@, hi@),
            decreases self.entries.len() - i,
        {
            let entry = &self.entries[i];
            if eq(entry.key.0.as_str(), lo) && eq(entry.key.1.as_str(), hi) {
                proof {
                    lemma_slot_unique(self@, (lo@, hi@), i as int);
                }
                return Some(i);
            }
            i = i + 1;
        }
        None
    }

    /// Puts the path between two chains into the cache, in place of the
    /// one held for the same two chains if there is one. Only a build
    /// fills a cache: once handed out, a cache does not change.
    pub(crate) fn insert(&mut self, chain_a: &str, chain_b: &str, descriptor: IBCPath)
        ensures
            final(self)@ == stored(
                old(self)@,
                canonical_pair(chain_a@, chain_b@),
                descriptor.deep_view(),
            ),
            well_formed(old(self)@),
            well_formed(final(self)@),
    {
        let (lo, hi) = ordered(chain_a, chain_b);
        let ghost key = (lo@, hi@);
        let ghost before = self@;
        proof {
            use_type_invariant(&*self);
            lemma_canonical_pair(chain_a@, chain_b@);
            lemma_stored(before, key, descriptor.deep_view());
        }
        let entry = CachedPath { key: (lo.to_owned(), hi.to_owned()), descriptor };
        match self.position(lo, hi) {
            Some(i) => {
                let mut entries: Vec<CachedPath> = Vec::new();
                std::mem::swap(&mut entries, &mut self.entries);
                entries.set(i, entry);
                assert(entries.deep_view() =~= stored(before, key, descriptor.deep_view()));
                self.entries = entries;
            },
            None => {
                let mut entries: Vec<CachedPath> = Vec::new();
                std::mem::swap(&mut entries, &mut self.entries);
                entries.push(entry);
                assert(entries.deep_view() =~= stored(before, key, descriptor.deep_view()));
                self.entries = entries;
            },
        }
    }

    /// The path between two chains, named in either order.
    pub fn get(&self, chain_a: &str, chain_b: &str) -> (found: Option<IBCPath>)
        ensures
            well_formed(self@),
            match found {
                Some(path) => lookup(self@, canonical_pair(chain_a@, chain_b@)) == Some(
                    path.deep_view(),
                ),
                None => lookup(self@, canonical_pair(chain_a@, chain_b@)) is None,
            },
            lookup(self@, canonical_pair(chain_a@, chain_b@)) == lookup(
                self@,
                canonical_pair(chain_b@, chain_a@),
            ),
    {
        proof {
            lemma_canonical_pair(chain_a@, chain_b@);
        }
        let (lo, hi) = ordered(chain_a, chain_b);
        match self.position(lo, hi) {
            Some(i) => Some(self.entries[i].descriptor.clone()),
            None => None,
        }
    }

    /// Every path with at least one channel that meets `tag`, in the
    /// order of the cache.
    pub fn filter(&self, tag: Tag) -> (paths: Vec<IBCPath>)
        ensures
            paths.deep_view() == selected(self@, tag.deep_view()),
    {
        let mut paths: Vec<IBCPath> = Vec::new();
        let mut i: usize = 0;
        while i < self.entries.len()
            invariant
                i <= self.entries.len(),
                self@ == self.entries.deep_view(),
                paths.deep_view() == selected(self@.take(i as int), tag.deep_view()),
            decreases self.entries.len() - i,
        {
            let entry = &self.entries[i];
            proof {
                assert(self@.take(i + 1) =~= self@.take(i as int).push(entry.deep_view()));
                lemma_selected_push(self@.take(i as int), entry.deep_view(), tag.deep_view());
            }
            if entry.descriptor.has_tag(&tag) {
                paths.push(entry.descriptor.clone());
            }
            i = i + 1;
        }
        assert(self@.take(self@.len() as int) =~= self@);
        paths
    }
}

} // verus!
