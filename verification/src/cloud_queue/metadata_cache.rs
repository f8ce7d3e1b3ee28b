//! Cache for track metadata fetched from Qobuz API.

use crate::model::{map_view, seq_view};
use crate::qobuz_api::{TrackMetadata, TrackMetadataView};
use std::collections::HashMap;
use vstd::prelude::*;

verus! {

broadcast use vstd::std_specs::hash::group_hash_axioms;

/// Cache for track metadata fetched from Qobuz API.
///
/// Shared across all bridges to avoid duplicate fetches.
#[derive(Debug)]
pub struct MetadataCache {
    inner: HashMap<u64, TrackMetadata>,
}

/// The cache after metadata has been inserted in the given order.
pub open spec fn cached(
    cache: Map<u64, TrackMetadataView>,
    metadata: Seq<TrackMetadataView>,
) -> Map<u64, TrackMetadataView>
    decreases metadata.len(),
{
    if metadata.len() == 0 {
        cache
    } else {
        cached(cache, metadata.drop_last()).insert(metadata.last().id, metadata.last())
    }
}

/// The part of the cache that holds the given tracks.
pub open spec fn cached_of(
    cache: Map<u64, TrackMetadataView>,
    track_ids: Seq<u64>,
) -> Map<u64, TrackMetadataView> {
    cache.restrict(track_ids.to_set())
}

/// The track IDs of a list that the cache does not hold, in order.
pub open spec fn missing_ids(cache: Map<u64, TrackMetadataView>, track_ids: Seq<u64>) -> Seq<u64> {
    track_ids.filter(|id: u64| !cache.contains_key(id))
}

impl View for MetadataCache {
    type V = Map<u64, TrackMetadataView>;

    closed spec fn view(&self) -> Map<u64, TrackMetadataView> {
        map_view(self.inner@)
    }
}

impl Default for MetadataCache {
    fn default() -> (r: Self)
        ensures
            r@ == Map::<u64, TrackMetadataView>::empty(),
    {
        MetadataCache::new()
    }
}

impl MetadataCache {
    /// Creates a new empty cache.
    pub fn new() -> (r: Self)
        ensures
            r@ == Map::<u64, TrackMetadataView>::empty(),
    {
        let r = MetadataCache { inner: HashMap::new() };
        proof {
            assert(r@ =~= Map::<u64, TrackMetadataView>::empty());
        }
        r
    }

    /// Gets metadata for a single track.
    pub fn get(&self, track_id: u64) -> (r: Option<TrackMetadata>)
        ensures
            r is Some <==> self@.contains_key(track_id),
            r matches Some(m) ==> m@ == self@[track_id],
    {
        match self.inner.get(&track_id) {
            Some(m) => Some(m.clone()),
            None => None,
        }
    }

    /// Gets metadata for multiple tracks.
    ///
    /// Returns a map of track_id -> metadata for all tracks found in cache.
    pub fn get_many(&self, track_ids: &[u64]) -> (r: HashMap<u64, TrackMetadata>)
        ensures
            map_view(r@) == cached_of(self@, track_ids@),
    {
        let mut found: HashMap<u64, TrackMetadata> = HashMap::new();
        let n: usize = track_ids.len();
        let mut i: usize = 0;
        proof {
            assert(map_view(found@) =~= cached_of(self@, track_ids@.take(0)));
        }
        while i < n
            invariant
                n == track_ids@.len(),
                i <= n,
                map_view(found@) == cached_of(self@, track_ids@.take(i as int)),
            decreases n - i,
        {
            let id: u64 = track_ids[i];
            let ghost before = found@;
            let ghost ids = track_ids@.take(i as int);
            proof {
                assert(track_ids@.take(i + 1) =~= ids.push(id));
                ids.lemma_push_to_set_commute(id);
            }
            match self.inner.get(&id) {
                Some(m) => {
                    let copy = m.clone();
                    let ghost value = copy@;
                    found.insert(id, copy);
                    proof {
                        assert(map_view(found@) =~= map_view(before).insert(id, value));
                        assert(map_view(found@) =~= cached_of(self@, track_ids@.take(i + 1)));
                    }
                },
                None => {
                    proof {
                        assert(map_view(found@) =~= cached_of(self@, track_ids@.take(i + 1)));
                    }
                },
            }
            i = i + 1;
        }
        proof {
            assert(track_ids@.take(n as int) =~= track_ids@);
        }
        found
    }

    /// Inserts metadata for a single track.
    pub fn insert(&mut self, metadata: TrackMetadata)
        ensures
            final(self)@ == old(self)@.insert(metadata.id, metadata@),
    {
        let ghost before = self.inner@;
        let ghost value = metadata@;
        let id: u64 = metadata.id;
        self.inner.insert(id, metadata);
        proof {
            assert(map_view(self.inner@) =~= map_view(before).insert(id, value));
        }
    }

    /// Inserts metadata for multiple tracks.
    pub fn insert_many(&mut self, metadata: Vec<TrackMetadata>)
        ensures
            final(self)@ == cached(old(self)@, seq_view(metadata@)),
    {
        let ghost before = self@;
        let n: usize = metadata.len();
        let mut i: usize = 0;
        while i < n
            invariant
                n == metadata@.len(),
                i <= n,
                self@ == cached(before, seq_view(metadata@).take(i as int)),
            decreases n - i,
        {
            let m = metadata[i].clone();
            proof {
                assert(seq_view(metadata@).take(i + 1).drop_last() =~= seq_view(metadata@).take(
                    i as int,
                ));
                assert(seq_view(metadata@).take(i + 1).last() == m@);
            }
            self.insert(m);
            i = i + 1;
        }
        proof {
            assert(seq_view(metadata@).take(n as int) =~= seq_view(metadata@));
        }
    }

    /// Finds track IDs that are not in the cache.
    pub fn missing(&self, track_ids: &[u64]) -> (r: Vec<u64>)
        ensures
            r@ == missing_ids(self@, track_ids@),
    {
        let mut ids: Vec<u64> = Vec::new();
        let n: usize = track_ids.len();
        let mut i: usize = 0;
        proof {
            reveal(Seq::filter);
            assert(ids@ =~= missing_ids(self@, track_ids@.take(0)));
        }
        while i < n
            invariant
                n == track_ids@.len(),
                i <= n,
                ids@ == missing_ids(self@, track_ids@.take(i as int)),
            decreases n - i,
        {
            let id: u64 = track_ids[i];
            proof {
                reveal(Seq::filter);
                assert(track_ids@.take(i + 1).drop_last() =~= track_ids@.take(i as int));
                assert(track_ids@.take(i + 1).last() == id);
            }
            if !self.inner.contains_key(&id) {
                ids.push(id);
            }
            i = i + 1;
        }
        proof {
            assert(track_ids@.take(n as int) =~= track_ids@);
        }
        ids
    }

    /// Gets the number of cached entries.
    pub fn len(&self) -> (r: usize)
        ensures
            r == self@.len(),
    {
        proof {
            assert(self@.dom() =~= self.inner@.dom());
        }
        self.inner.len()
    }
}

} // verus!
