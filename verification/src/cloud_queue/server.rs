//! State of the Cloud Queue HTTP server.

use crate::cloud_queue::metadata_cache::MetadataCache;
use crate::cloud_queue::state::{QueueStore, QueueView};
use crate::qobuz_api::TrackMetadataView;
use vstd::prelude::*;

verus! {

/// Shared application state for cloud queue handlers.
pub struct AppState {
    pub store: QueueStore,
    pub metadata_cache: MetadataCache,
}

/// Cloud Queue HTTP server.
///
/// Serves the Sonos Cloud Queue API endpoints for all bridges.
pub struct CloudQueueServer {
    pub state: AppState,
    pub port: u16,
}

impl CloudQueueServer {
    /// Creates a new CloudQueueServer.
    pub fn new(port: u16) -> (r: Self)
        ensures
            r.state.store@ == Map::<Seq<char>, QueueView>::empty(),
            r.state.metadata_cache@ == Map::<u64, TrackMetadataView>::empty(),
            r.port == port,
    {
        CloudQueueServer {
            state: AppState { store: QueueStore::new(), metadata_cache: MetadataCache::new() },
            port,
        }
    }

    /// Gets the queue store.
    pub fn store(&self) -> (r: &QueueStore)
        ensures
            *r == self.state.store,
    {
        &self.state.store
    }
}

} // verus!
