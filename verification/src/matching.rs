//! The style-sharing cache of one worker thread.
//!
//! Elements that look alike get the same style. A worker that has resolved
//! the style of one element remembers it under the element's equivalence key,
//! and offers it again to the next element with the same key. Every entry
//! carries the generation of the pass that made it, and a lookup in a later
//! pass does not return it.

use std::collections::HashMap;
use vstd::prelude::*;

verus! {

/// Stands for a resolved style, which the style system keeps.
#[derive(Clone, Copy, PartialEq, Eq, Hash, Debug, Structural)]
pub struct StyleHandle(pub u64);

/// A resolved style together with the generation of the pass that resolved it.
#[derive(Clone, Copy, PartialEq, Eq, Debug, Structural)]
pub struct StyleSharingCandidate {
    /// The style to share.
    pub style: StyleHandle,
    /// The generation of the pass in which the style was resolved.
    pub generation: u32,
}

/// The style that `entries` offers for `key` in the pass `generation`: that of
/// the entry under `key`, if there is one and it was made in that pass.
pub open spec fn fresh_style(
    entries: Map<u64, StyleSharingCandidate>,
    key: u64,
    generation: u32,
) -> Option<StyleHandle> {
    if entries.contains_key(key) && entries[key].generation == generation {
        Some(entries[key].style)
    } else {
        None
    }
}

/// A lookup after an insertion: under the inserted key it finds the new
/// entry, and only in the pass that made it; under any other key it finds
/// what it found before.
pub proof fn lemma_lookup_after_insert(
    entries: Map<u64, StyleSharingCandidate>,
    key: u64,
    candidate: StyleSharingCandidate,
    probe: u64,
    generation: u32,
)
    ensures
        fresh_style(entries.insert(key, candidate), probe, generation) == (if probe == key {
            if candidate.generation == generation {
                Some(candidate.style)
            } else {
                None
            }
        } else {
            fresh_style(entries, probe, generation)
        }),
{
}

/// An entry that was made in one pass is not offered in any other.
pub proof fn lemma_stale_entry_is_rejected(
    entries: Map<u64, StyleSharingCandidate>,
    key: u64,
    generation: u32,
    later: u32,
)
    requires
        entries.contains_key(key),
        entries[key].generation == generation,
        later != generation,
    ensures
        fresh_style(entries, key, later) is None,
{
}

/// Every worker has a cache of its own. With the caches of all workers in a
/// row, one for each, an insertion by one worker replaces the cache of that
/// worker and no other, so it changes no lookup of any other worker.
pub proof fn lemma_insert_is_seen_by_one_worker(
    caches: Seq<Map<u64, StyleSharingCandidate>>,
    worker: int,
    key: u64,
    candidate: StyleSharingCandidate,
    other: int,
    probe: u64,
    generation: u32,
)
    requires
        0 <= worker < caches.len(),
        0 <= other < caches.len(),
        other != worker,
    ensures
        fresh_style(
            caches.update(worker, caches[worker].insert(key, candidate))[other],
            probe,
            generation,
        ) == fresh_style(caches[other], probe, generation),
{
}

/// The style-sharing cache of one worker thread, from equivalence keys to
/// the styles resolved for them.
pub struct StyleSharingCandidateCache {
    entries: HashMap<u64, StyleSharingCandidate>,
}

impl View for StyleSharingCandidateCache {
    type V = Map<u64, StyleSharingCandidate>;

    closed spec fn view(&self) -> Map<u64, StyleSharingCandidate> {
        self.entries@
    }
}

impl StyleSharingCandidateCache {
    /// An empty cache.
    pub fn new() -> (cache: Self)
        ensures
            cache@ == Map::<u64, StyleSharingCandidate>::empty(),
    {
        StyleSharingCandidateCache { entries: HashMap::new() }
    }

    /// Remembers `style` under `key` as resolved in the pass `generation`.
    /// An earlier entry under the same key is replaced.
    pub fn insert(&mut self, key: u64, style: StyleHandle, generation: u32)
        ensures
            final(self)@ == old(self)@.insert(key, (StyleSharingCandidate { style, generation })),
    {
        self.entries.insert(key, StyleSharingCandidate { style, generation });
    }

    /// The style to share with an element whose equivalence key is `key`, in
    /// the pass `generation`. An entry from another pass is not returned.
    pub fn lookup(&self, key: u64, generation: u32) -> (found: Option<StyleHandle>)
        ensures
            found == fresh_style(self@, key, generation),
    {
        match self.entries.get(&key) {
            Some(candidate) => {
                if candidate.generation == generation {
                    Some(candidate.style)
                } else {
                    None
                }
            },
            None => None,
        }
    }

    /// The number of entries, stale ones included.
    pub fn len(&self) -> (len: usize)
        ensures
            len == self@.len(),
    {
        self.entries.len()
    }

    /// Forgets every entry.
    pub fn clear(&mut self)
        ensures
            final(self)@ == Map::<u64, StyleSharingCandidate>::empty(),
    {
        self.entries.clear();
    }
}

} // verus!
