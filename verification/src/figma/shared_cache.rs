//! The store of exported images behind a lock, for tasks that share it.

use crate::error::Error;
use crate::error::ErrorView;
use crate::figma::image_cache::ImageCache;
use crate::figma::image_cache::ImageEntry;
use crate::figma::image_cache::ImageEntryView;
use crate::figma::image_cache::keyed_by_uri;
use crate::figma::image_cache::not_found_message;
use crate::figma::image_cache::resource_uri;
use crate::scale::Scale;
use crate::server::Download;
use crate::server::ExportedImage;
use crate::server::ReadStep;
use crate::server::begin_read;
use crate::server::bytes_result_view;
use crate::server::export_uris;
use crate::server::finish_read;
use crate::server::first_step;
use crate::server::image_views;
use crate::server::images_of;
use crate::server::read_outcome;
use crate::server::register_exports_at;
use crate::server::register_payload_at;
use crate::text::texts;
use crate::timestamp::Timestamp;
use serde_json::Value;
use std::sync::Arc;
use vstd::prelude::*;
use vstd::rwlock::RwLock;
use vstd::rwlock::RwLockPredicate;

verus! {

/// What the lock asks of a store that is put behind it: nothing beyond
/// what every store fulfils by its own invariant.
pub struct AnyStore {}

impl RwLockPredicate<ImageCache> for AnyStore {
    open spec fn inv(self, store: ImageCache) -> bool {
        true
    }
}

/// The identifier that the fields of an entry give.
pub open spec fn uri_of(entry: ImageEntryView) -> Seq<char> {
    resource_uri(entry.file_key, entry.node_id, entry.format, entry.scale)
}

/// Makes another pointer to the lock with `Arc::clone`. The two point to
/// the same lock.
#[verifier::external_body]
fn another_pointer(lock: &Arc<RwLock<ImageCache, AnyStore>>) -> (copy: Arc<RwLock<ImageCache, AnyStore>>)
    ensures
        copy == *lock,
{
    Arc::clone(lock)
}

/// A store of exported images that tasks share.
///
/// The store stands behind a lock that lets any number of readers in
/// together and a writer alone. Every method takes the lock for the length
/// of one look or one change and waits for nothing else while it holds the
/// lock: whoever fetches bytes does so between two calls, with the lock
/// free. A copy of the handle reaches the same store.
///
/// Between two calls other tasks may change the store. So the contracts
/// here state what holds of a call whatever the others do; what a change
/// does to the entries is stated on `ImageCache`.
pub struct SharedImageCache {
    lock: Arc<RwLock<ImageCache, AnyStore>>,
}

impl SharedImageCache {
    /// A handle to a new, empty store.
    pub fn new() -> (shared: SharedImageCache) {
        SharedImageCache { lock: Arc::new(RwLock::new(ImageCache::new(), Ghost(AnyStore {  }))) }
    }

    /// Registers an export made at the time `now` and returns its
    /// identifier.
    pub fn register_export_at(
        &self,
        file_key: String,
        node_id: String,
        format: String,
        scale: Scale,
        figma_url: String,
        now: Timestamp,
    ) -> (uri: String)
        ensures
            uri@ == resource_uri(file_key@, node_id@, format@, scale),
    {
        let (mut store, handle) = self.lock.acquire_write();
        let uri = store.register_export_at(file_key, node_id, format, scale, figma_url, now);
        handle.release_write(store);
        uri
    }

    /// Registers an export made now, by the system clock, and returns its
    /// identifier.
    pub fn register_export(
        &self,
        file_key: String,
        node_id: String,
        format: String,
        scale: Scale,
        figma_url: String,
    ) -> (uri: String)
        ensures
            uri@ == resource_uri(file_key@, node_id@, format@, scale),
    {
        let now = Timestamp::now();
        self.register_export_at(file_key, node_id, format, scale, figma_url, now)
    }

    /// A copy of every entry with its identifier, as the store holds them
    /// at the moment of the look. Each entry stands under the identifier
    /// that its fields give, and no identifier comes twice.
    pub fn list_all(&self) -> (list: Vec<(String, ImageEntry)>)
        ensures
            forall|i: int| 0 <= i < list@.len() ==> (#[trigger] list@[i]).0@ == uri_of(list@[i].1@),
            forall|i: int, j: int| 0 <= i < j < list@.len() ==> list@[i].0@ != list@[j].0@,
    {
        let handle = self.lock.acquire_read();
        let store = handle.borrow();
        let list = store.list_all();
        handle.release_read();
        list
    }

    /// A copy of the entry that is kept under `uri` at the moment of the
    /// look, if there is one. Its fields are those that give `uri`.
    pub fn get_entry(&self, uri: &str) -> (found: Option<ImageEntry>)
        ensures
            found matches Some(entry) ==> uri_of(entry@) == uri@,
    {
        let handle = self.lock.acquire_read();
        let found = handle.borrow().get_entry(uri);
        handle.release_read();
        found
    }

    /// Keeps `data` as the bytes of the entry under `uri`. The call fails
    /// exactly where nothing is kept under `uri` at the moment of the
    /// change, and then changes nothing.
    pub fn update_cached_data(&self, uri: &str, data: Vec<u8>) -> (outcome: Result<(), Error>)
        ensures
            outcome matches Err(e) ==> e@ == ErrorView::NotFound(not_found_message(uri@)),
    {
        let (mut store, handle) = self.lock.acquire_write();
        let outcome = store.update_cached_data(uri, data);
        handle.release_write(store);
        outcome
    }

    /// The first step of reading the resource `uri` at the time `now`: that
    /// of `begin_read` for the entries that the store holds at the moment of
    /// the look.
    pub fn begin_read(&self, uri: &str, now: &Timestamp) -> (step: ReadStep)
        ensures
            exists|entries: Map<Seq<char>, ImageEntryView>|
                keyed_by_uri(entries) && step@ == #[trigger] first_step(entries, uri@, *now),
    {
        let handle = self.lock.acquire_read();
        let store = handle.borrow();
        let step = begin_read(store, uri, now);
        handle.release_read();
        step
    }

    /// Ends the read of `uri` that `begin_read` sent to fetch. What the
    /// reader gets depends on the fetch alone. The bytes of a good answer are
    /// kept, if the entry is still there.
    pub fn finish_read(&self, uri: &str, download: Download) -> (outcome: Result<Vec<u8>, Error>)
        ensures
            bytes_result_view(outcome) == read_outcome(download@),
    {
        let (mut store, handle) = self.lock.acquire_write();
        let outcome = finish_read(&mut store, uri, download);
        handle.release_write(store);
        outcome
    }

    /// Registers the images of an export that was made at the time `now`
    /// in one change, and returns the identifiers under which they stand.
    pub fn register_exports_at(
        &self,
        file_key: &str,
        format: &str,
        scale: Scale,
        images: &Vec<ExportedImage>,
        now: Timestamp,
    ) -> (uris: Vec<String>)
        ensures
            texts(uris@) == export_uris(file_key@, format@, scale, image_views(images@)),
    {
        let (mut store, handle) = self.lock.acquire_write();
        let uris = register_exports_at(&mut store, file_key, format, scale, images, now);
        handle.release_write(store);
        uris
    }

    /// Registers the images that the answer to an export lists, for an
    /// export that was made at the time `now`, in one change.
    pub fn register_payload_at(
        &self,
        file_key: &str,
        format: &str,
        scale: Scale,
        payload: &Value,
        now: Timestamp,
    ) -> (uris: Vec<String>)
        ensures
            texts(uris@) == export_uris(file_key@, format@, scale, images_of(*payload)),
    {
        let (mut store, handle) = self.lock.acquire_write();
        let uris = register_payload_at(&mut store, file_key, format, scale, payload, now);
        handle.release_write(store);
        uris
    }
}

impl Clone for SharedImageCache {
    /// Another handle to the same store.
    fn clone(&self) -> (copy: SharedImageCache)
        ensures
            copy == *self,
    {
        SharedImageCache { lock: another_pointer(&self.lock) }
    }
}

impl Default for SharedImageCache {
    fn default() -> SharedImageCache {
        SharedImageCache::new()
    }
}

} // verus!
