//! The store of exported images.
//!
//! An export registers an image under an identifier that is made of its
//! file, node, format and scale. The entry holds the short-lived address at
//! which the bytes can be fetched, and, once they have been fetched, the
//! bytes. Registering the same export again replaces the entry.
//!
//! The store is described by a map from identifiers to entries. Each
//! operation states the map that it leaves, and the laws at the end of the
//! module relate the operations to each other.

use crate::error::Error;
use crate::error::ErrorView;
use crate::scale::Scale;
use crate::text::decimal;
use crate::text::lowered;
use crate::text::push_decimal;
use crate::text::spells_ignoring_case;
use crate::text::to_chars;
use crate::timestamp::NANOS_PER_SEC;
use crate::timestamp::Timestamp;
use vstd::hash_map::StringHashMap;
use vstd::prelude::*;
use vstd::string::*;

verus! {

/// The number of seconds for which a download address stays good.
pub const URL_LIFETIME_SECS: u64 = 3600;

/// One exported image: where it came from, where its bytes can be fetched,
/// and the bytes themselves once they have been fetched.
#[derive(Debug)]
pub struct ImageEntry {
    pub file_key: String,
    pub node_id: String,
    pub format: String,
    pub scale: Scale,
    pub figma_url: String,
    pub cached_data: Option<Vec<u8>>,
    pub export_time: Timestamp,
}

/// What an `ImageEntry` holds, as mathematical values.
pub struct ImageEntryView {
    pub file_key: Seq<char>,
    pub node_id: Seq<char>,
    pub format: Seq<char>,
    pub scale: Scale,
    pub figma_url: Seq<char>,
    pub cached_data: Option<Seq<u8>>,
    pub export_time: Timestamp,
}

impl View for ImageEntry {
    type V = ImageEntryView;

    open spec fn view(&self) -> ImageEntryView {
        ImageEntryView {
            file_key: self.file_key@,
            node_id: self.node_id@,
            format: self.format@,
            scale: self.scale,
            figma_url: self.figma_url@,
            cached_data: match self.cached_data {
                Some(data) => Some(data@),
                None => None,
            },
            export_time: self.export_time,
        }
    }
}

impl Clone for ImageEntry {
    fn clone(&self) -> (copy: ImageEntry)
        ensures
            copy@ == self@,
    {
        ImageEntry {
            file_key: self.file_key.clone(),
            node_id: self.node_id.clone(),
            format: self.format.clone(),
            scale: self.scale,
            figma_url: self.figma_url.clone(),
            cached_data: match &self.cached_data {
                Some(data) => Some(data.clone()),
                None => None,
            },
            export_time: self.export_time,
        }
    }
}

/// The identifier under which an export is kept.
///
/// An export at scale one is `figma://file/{file_key}/node/{node_id}.{format}`.
/// At any other scale the whole part of the scale and an `x` stand after an
/// `@` before the dot.
pub open spec fn resource_uri(
    file_key: Seq<char>,
    node_id: Seq<char>,
    format: Seq<char>,
    scale: Scale,
) -> Seq<char> {
    if scale.is_one() {
        "figma://file/"@ + file_key + "/node/"@ + node_id + "."@ + format
    } else {
        "figma://file/"@ + file_key + "/node/"@ + node_id + "@"@ + decimal(scale.whole() as nat)
            + "x."@ + format
    }
}

/// The entry that a registration at the time `now` creates: the given
/// fields, and no bytes.
pub open spec fn fresh_entry(
    file_key: Seq<char>,
    node_id: Seq<char>,
    format: Seq<char>,
    scale: Scale,
    figma_url: Seq<char>,
    now: Timestamp,
) -> ImageEntryView {
    ImageEntryView {
        file_key,
        node_id,
        format,
        scale,
        figma_url,
        cached_data: None,
        export_time: now,
    }
}

/// The entries after a registration: the fresh entry stands under its
/// identifier, in place of whatever stood there.
pub open spec fn registered(
    entries: Map<Seq<char>, ImageEntryView>,
    file_key: Seq<char>,
    node_id: Seq<char>,
    format: Seq<char>,
    scale: Scale,
    figma_url: Seq<char>,
    now: Timestamp,
) -> Map<Seq<char>, ImageEntryView> {
    entries.insert(
        resource_uri(file_key, node_id, format, scale),
        fresh_entry(file_key, node_id, format, scale, figma_url, now),
    )
}

/// The entries after `data` has been kept for `uri`: the entry under `uri`
/// holds the bytes and is otherwise as before. Where no entry stands under
/// `uri` nothing changes.
pub open spec fn with_cached_data(
    entries: Map<Seq<char>, ImageEntryView>,
    uri: Seq<char>,
    data: Seq<u8>,
) -> Map<Seq<char>, ImageEntryView> {
    if entries.contains_key(uri) {
        entries.insert(uri, ImageEntryView { cached_data: Some(data), ..entries[uri] })
    } else {
        entries
    }
}

/// The identifiers in the order of their first registration, after `uri`
/// has been registered.
pub open spec fn listed_with(uris: Seq<Seq<char>>, uri: Seq<char>) -> Seq<Seq<char>> {
    if uris.contains(uri) {
        uris
    } else {
        uris.push(uri)
    }
}

/// A download address is expired at `now` if more than 3600 seconds have
/// passed since the export, to the nanosecond, or if `now` lies before the
/// export, in which case the time that has passed cannot be told. At exactly
/// 3600 seconds the address is still good.
pub open spec fn expired(export_time: Timestamp, now: Timestamp) -> bool {
    match now.elapsed_since(export_time) {
        Some(elapsed) => elapsed > URL_LIFETIME_SECS * NANOS_PER_SEC,
        None => true,
    }
}

/// The media type of an image format. Capital and small letters of the
/// basic Latin alphabet count as the same.
pub open spec fn mime_type_of(format: Seq<char>) -> Seq<char> {
    let name = lowered(format);
    if name == "png"@ {
        "image/png"@
    } else if name == "jpg"@ || name == "jpeg"@ {
        "image/jpeg"@
    } else if name == "svg"@ {
        "image/svg+xml"@
    } else if name == "pdf"@ {
        "application/pdf"@
    } else {
        "application/octet-stream"@
    }
}

/// Every entry stands under the identifier that its own fields give.
pub open spec fn keyed_by_uri(entries: Map<Seq<char>, ImageEntryView>) -> bool {
    forall|uri: Seq<char>| #[trigger]
        entries.contains_key(uri) ==> resource_uri(
            entries[uri].file_key,
            entries[uri].node_id,
            entries[uri].format,
            entries[uri].scale,
        ) == uri
}

/// Where an entry stands in its life at a given time.
#[derive(Clone, Copy, Debug, PartialEq, Eq, Structural)]
pub enum EntryState {
    /// No bytes are kept and the download address is still good.
    Registered,
    /// No bytes are kept and the download address is past its lifetime.
    Expired,
    /// The bytes are kept.
    Materialized,
}

/// The state of an entry at the time `now`.
pub open spec fn state_of(entry: ImageEntryView, now: Timestamp) -> EntryState {
    if entry.cached_data is Some {
        EntryState::Materialized
    } else if expired(entry.export_time, now) {
        EntryState::Expired
    } else {
        EntryState::Registered
    }
}

/// The message of the error for an identifier under which nothing is kept.
pub open spec fn not_found_message(uri: Seq<char>) -> Seq<char> {
    "Resource not found: "@ + uri
}

/// The store of exported images, keyed by their identifiers.
///
/// The store owns its entries. Whoever shares it between tasks puts it
/// behind a lock; a reader then borrows it and a writer borrows it
/// exclusively, for the length of one call.
pub struct ImageCache {
    entries: StringHashMap<ImageEntry>,
    order: Vec<String>,
}

impl View for ImageCache {
    type V = Map<Seq<char>, ImageEntryView>;

    closed spec fn view(&self) -> Map<Seq<char>, ImageEntryView> {
        Map::new(|uri: Seq<char>| self.entries@.contains_key(uri), |uri: Seq<char>| self.entries@[uri]@)
    }
}

impl ImageCache {
    /// The identifiers of the entries, in the order of their first
    /// registration.
    pub closed spec fn uris(&self) -> Seq<Seq<char>> {
        Seq::new(self.order@.len(), |i: int| self.order@[i]@)
    }

    /// Each entry is listed once under its identifier, and nothing else is
    /// listed.
    #[verifier::type_invariant]
    closed spec fn well_formed(&self) -> bool {
        &&& forall|i: int| 0 <= i < self.order@.len() ==> self.entries@.contains_key(#[trigger] self.order@[i]@)
        &&& forall|uri: Seq<char>| self.entries@.contains_key(uri) ==> #[trigger] self.uris().contains(uri)
        &&& forall|i: int, j: int| 0 <= i < j < self.order@.len() ==> self.order@[i]@ != self.order@[j]@
        &&& keyed_by_uri(self@)
    }

    /// An empty store.
    pub fn new() -> (cache: ImageCache)
        ensures
            cache@ == Map::<Seq<char>, ImageEntryView>::empty(),
            cache.uris() == Seq::<Seq<char>>::empty(),
    {
        let cache = ImageCache { entries: StringHashMap::new(), order: Vec::new() };
        cache
    }

    /// Moves the two parts out of the store and leaves it empty.
    fn take_parts(&mut self) -> (parts: (StringHashMap<ImageEntry>, Vec<String>))
        ensures
            parts.0 == old(self).entries,
            parts.1 == old(self).order,
    {
        let mut taken = ImageCache::new();
        std::mem::swap(self, &mut taken);
        (taken.entries, taken.order)
    }

    /// Computes `resource_uri`.
    pub fn generate_uri(file_key: &str, node_id: &str, format: &str, scale: Scale) -> (uri: String)
        ensures
            uri@ == resource_uri(file_key@, node_id@, format@, scale),
    {
        let mut uri = String::from_str("figma://file/");
        uri.append(file_key);
        uri.append("/node/");
        uri.append(node_id);
        if scale.equals_one() {
            uri.append(".");
        } else {
            uri.append("@");
            push_decimal(&mut uri, scale.truncated());
            uri.append("x.");
        }
        uri.append(format);
        uri
    }

    /// Computes `mime_type_of`.
    pub fn get_mime_type(format: &str) -> (mime: &'static str)
        ensures
            mime@ == mime_type_of(format@),
    {
        let name = to_chars(format);
        if spells_ignoring_case(&name, "png") {
            "image/png"
        } else if spells_ignoring_case(&name, "jpg") || spells_ignoring_case(&name, "jpeg") {
            "image/jpeg"
        } else if spells_ignoring_case(&name, "svg") {
            "image/svg+xml"
        } else if spells_ignoring_case(&name, "pdf") {
            "application/pdf"
        } else {
            "application/octet-stream"
        }
    }

    /// Computes `expired` for the entry's export time.
    pub fn is_expired_at(entry: &ImageEntry, now: &Timestamp) -> (b: bool)
        ensures
            b == expired(entry.export_time, *now),
    {
        now.is_before(&entry.export_time) || now.more_than_secs_after(
            &entry.export_time,
            URL_LIFETIME_SECS,
        )
    }

    /// Tells whether the entry's download address is expired by the system
    /// clock. The answer is that of `is_expired_at` for the time that the
    /// clock shows, whatever that is.
    pub fn is_expired(&self, entry: &ImageEntry) -> (b: bool)
        ensures
            exists|now: Timestamp| b == #[trigger] expired(entry.export_time, now),
    {
        let now = Timestamp::now();
        Self::is_expired_at(entry, &now)
    }

    /// Tells whether an entry is kept under `uri`.
    pub fn contains(&self, uri: &str) -> (b: bool)
        ensures
            b == self@.contains_key(uri@),
    {
        self.entries.contains_key(uri)
    }

    /// A copy of the entry kept under `uri`, if there is one.
    pub fn get_entry(&self, uri: &str) -> (found: Option<ImageEntry>)
        ensures
            match found {
                Some(entry) => self@.contains_key(uri@) && entry@ == self@[uri@],
                None => !self@.contains_key(uri@),
            },
            keyed_by_uri(self@),
    {
        proof {
            use_type_invariant(self);
        }
        match self.entries.get(uri) {
            Some(entry) => Some(entry.clone()),
            None => None,
        }
    }

    /// Registers an export made at the time `now` and returns its identifier.
    /// An entry that stood under the identifier is replaced: its bytes are
    /// gone and its export time is `now`.
    pub fn register_export_at(
        &mut self,
        file_key: String,
        node_id: String,
        format: String,
        scale: Scale,
        figma_url: String,
        now: Timestamp,
    ) -> (uri: String)
        ensures
            uri@ == resource_uri(file_key@, node_id@, format@, scale),
            final(self)@ == registered(
                old(self)@,
                file_key@,
                node_id@,
                format@,
                scale,
                figma_url@,
                now,
            ),
            final(self).uris() == listed_with(old(self).uris(), uri@),
            keyed_by_uri(final(self)@),
    {
        proof {
            use_type_invariant(&*self);
        }
        let uri = Self::generate_uri(file_key.as_str(), node_id.as_str(), format.as_str(), scale);
        let entry = ImageEntry {
            file_key,
            node_id,
            format,
            scale,
            figma_url,
            cached_data: None,
            export_time: now,
        };
        let ghost before = *self;
        let (mut entries, mut order) = self.take_parts();
        let known = entries.contains_key(uri.as_str());
        entries.insert(uri.clone(), entry);
        if !known {
            order.push(uri.clone());
        }
        proof {
            let after = ImageCache { entries, order };
            assert(known == before.uris().contains(uri@)) by {
                if before.uris().contains(uri@) {
                    let i = choose|i: int| 0 <= i < before.uris().len() && before.uris()[i] == uri@;
                    assert(before.entries@.contains_key(before.order@[i]@));
                }
            }
            assert(after@ =~= registered(
                before@,
                entry.file_key@,
                entry.node_id@,
                entry.format@,
                scale,
                entry.figma_url@,
                now,
            ));
            assert forall|k: Seq<char>| after.entries@.contains_key(k) implies #[trigger] after.uris().contains(k) by {
                if k == uri@ {
                    if !known {
                        assert(after.uris()[after.uris().len() - 1] == k);
                    }
                } else {
                    assert(before.uris().contains(k));
                    let i = choose|i: int| 0 <= i < before.uris().len() && before.uris()[i] == k;
                    assert(after.uris()[i] == k);
                }
            }
        }
        *self = ImageCache { entries, order };
        uri
    }

    /// Registers an export made now, by the system clock, and returns its
    /// identifier. The entry is that of `register_export_at` for the time
    /// that the clock shows.
    pub fn register_export(
        &mut self,
        file_key: String,
        node_id: String,
        format: String,
        scale: Scale,
        figma_url: String,
    ) -> (uri: String)
        ensures
            uri@ == resource_uri(file_key@, node_id@, format@, scale),
            final(self)@ == registered(
                old(self)@,
                file_key@,
                node_id@,
                format@,
                scale,
                figma_url@,
                final(self)@[uri@].export_time,
            ),
            final(self).uris() == listed_with(old(self).uris(), uri@),
            keyed_by_uri(final(self)@),
    {
        let now = Timestamp::now();
        self.register_export_at(file_key, node_id, format, scale, figma_url, now)
    }

    /// Keeps `data` as the bytes of the entry under `uri`. Where nothing is
    /// kept under `uri` the store stays as it is and the call fails.
    pub fn update_cached_data(&mut self, uri: &str, data: Vec<u8>) -> (outcome: Result<(), Error>)
        ensures
            final(self)@ == with_cached_data(old(self)@, uri@, data@),
            final(self).uris() == old(self).uris(),
            keyed_by_uri(final(self)@),
            old(self)@.contains_key(uri@) ==> outcome is Ok,
            !old(self)@.contains_key(uri@) ==> (outcome matches Err(e) && e@ == ErrorView::NotFound(
                not_found_message(uri@),
            )),
    {
        proof {
            use_type_invariant(&*self);
        }
        let ghost before = *self;
        let updated = match self.entries.get(uri) {
            Some(entry) => Some(
                ImageEntry {
                    file_key: entry.file_key.clone(),
                    node_id: entry.node_id.clone(),
                    format: entry.format.clone(),
                    scale: entry.scale,
                    figma_url: entry.figma_url.clone(),
                    cached_data: Some(data),
                    export_time: entry.export_time,
                },
            ),
            None => None,
        };
        match updated {
            Some(entry) => {
                let (mut entries, order) = self.take_parts();
                entries.insert(String::from_str(uri), entry);
                proof {
                    let after = ImageCache { entries, order };
                    assert(after@ =~= with_cached_data(before@, uri@, data@));
                    assert forall|k: Seq<char>| after.entries@.contains_key(k) implies #[trigger] after.uris().contains(k) by {
                        assert(before.uris().contains(k));
                    }
                }
                *self = ImageCache { entries, order };
                Ok(())
            },
            None => {
                let mut message = String::from_str("Resource not found: ");
                message.append(uri);
                Err(Error::NotFound(message))
            },
        }
    }

    /// A copy of every entry with its identifier, in the order of first
    /// registration. Each entry of the store is in the list exactly once.
    pub fn list_all(&self) -> (list: Vec<(String, ImageEntry)>)
        ensures
            list@.len() == self.uris().len(),
            forall|i: int| 0 <= i < list@.len() ==> {
                &&& (#[trigger] list@[i]).0@ == self.uris()[i]
                &&& self@.contains_key(self.uris()[i])
                &&& list@[i].1@ == self@[self.uris()[i]]
            },
            self.uris().no_duplicates(),
            self.uris().to_set() == self@.dom(),
            keyed_by_uri(self@),
    {
        proof {
            use_type_invariant(self);
        }
        let mut list: Vec<(String, ImageEntry)> = Vec::new();
        let mut i: usize = 0;
        while i < self.order.len()
            invariant
                i <= self.order@.len(),
                list@.len() == i,
                self.well_formed(),
                forall|j: int| 0 <= j < i ==> {
                    &&& (#[trigger] list@[j]).0@ == self.uris()[j]
                    &&& self@.contains_key(self.uris()[j])
                    &&& list@[j].1@ == self@[self.uris()[j]]
                },
            decreases self.order@.len() - i,
        {
            let uri = &self.order[i];
            match self.entries.get(uri.as_str()) {
                Some(entry) => {
                    list.push((uri.clone(), entry.clone()));
                },
                None => {
                    // Every identifier that is listed has its entry.
                    assert(self.entries@.contains_key(self.order@[i as int]@));
                    assert(false);
                },
            }
            i += 1;
        }
        proof {
            assert(self.uris().to_set() =~= self@.dom()) by {
                assert forall|k: Seq<char>| self.uris().to_set().contains(k) implies self@.dom().contains(k) by {
                    let j = choose|j: int| 0 <= j < self.uris().len() && self.uris()[j] == k;
                    assert(self.entries@.contains_key(self.order@[j]@));
                }
            }
        }
        list
    }

    /// The number of entries.
    pub fn len(&self) -> (n: usize)
        ensures
            n == self.uris().len(),
    {
        self.order.len()
    }
}

impl Default for ImageCache {
    fn default() -> (cache: ImageCache)
        ensures
            cache@ == Map::<Seq<char>, ImageEntryView>::empty(),
            cache.uris() == Seq::<Seq<char>>::empty(),
    {
        ImageCache::new()
    }
}

/// After a registration the entry found under the returned identifier holds
/// exactly the registered fields and no bytes, whatever stood there before.
/// Every other entry is as it was.
pub proof fn lemma_register_then_get(
    entries: Map<Seq<char>, ImageEntryView>,
    file_key: Seq<char>,
    node_id: Seq<char>,
    format: Seq<char>,
    scale: Scale,
    figma_url: Seq<char>,
    now: Timestamp,
)
    ensures
        ({
            let uri = resource_uri(file_key, node_id, format, scale);
            let after = registered(entries, file_key, node_id, format, scale, figma_url, now);
            &&& after.contains_key(uri)
            &&& after[uri].file_key == file_key
            &&& after[uri].node_id == node_id
            &&& after[uri].format == format
            &&& after[uri].scale == scale
            &&& after[uri].figma_url == figma_url
            &&& after[uri].cached_data is None
            &&& after[uri].export_time == now
            &&& forall|other: Seq<char>|
                other != uri ==> (after.contains_key(other) <==> entries.contains_key(other)) && (
                entries.contains_key(other) ==> after[other] == entries[other])
        }),
{
}

/// At scale one the identifier is made of the file key, the node and the
/// format alone: nothing stands between the node and the dot.
pub proof fn lemma_uri_at_scale_one(file_key: Seq<char>, node_id: Seq<char>, format: Seq<char>)
    ensures
        resource_uri(file_key, node_id, format, Scale { bits: crate::scale::ONE_BITS })
            == "figma://file/"@ + file_key + "/node/"@ + node_id + "."@ + format,
{
}

/// At scale two the identifier holds `@2x` between the node and the dot.
pub proof fn lemma_uri_at_scale_two(file_key: Seq<char>, node_id: Seq<char>, format: Seq<char>)
    ensures
        resource_uri(file_key, node_id, format, Scale { bits: crate::scale::TWO_BITS })
            == "figma://file/"@ + file_key + "/node/"@ + node_id + "@2x."@ + format,
{
    crate::scale::lemma_whole_of_small_scales();
    reveal_strlit("@");
    reveal_strlit("x.");
    reveal_strlit("@2x.");
    let two = Scale { bits: crate::scale::TWO_BITS };
    assert("figma://file/"@ + file_key + "/node/"@ + node_id + "@"@ + decimal(two.whole() as nat)
        + "x."@ + format =~= "figma://file/"@ + file_key + "/node/"@ + node_id + ("@"@ + decimal(
        two.whole() as nat,
    ) + "x."@) + format);
}

/// Registering the same export again puts a fresh entry in place of the old
/// one: bytes that were kept for it are gone, and its export time is that of
/// the second registration.
pub proof fn lemma_register_again_resets(
    entries: Map<Seq<char>, ImageEntryView>,
    file_key: Seq<char>,
    node_id: Seq<char>,
    format: Seq<char>,
    scale: Scale,
    first_url: Seq<char>,
    first_time: Timestamp,
    data: Seq<u8>,
    second_url: Seq<char>,
    second_time: Timestamp,
)
    ensures
        ({
            let uri = resource_uri(file_key, node_id, format, scale);
            let first = registered(entries, file_key, node_id, format, scale, first_url, first_time);
            let filled = with_cached_data(first, uri, data);
            let second = registered(filled, file_key, node_id, format, scale, second_url, second_time);
            &&& filled[uri].cached_data == Some(data)
            &&& second[uri].cached_data is None
            &&& second[uri].export_time == second_time
            &&& second[uri].figma_url == second_url
            &&& second.dom() == first.dom()
        }),
{
}

/// Keeping bytes for an identifier under which nothing stands changes
/// nothing. Keeping bytes for a known identifier changes the bytes of that
/// entry and nothing else.
pub proof fn lemma_cached_data_touches_one_entry(
    entries: Map<Seq<char>, ImageEntryView>,
    uri: Seq<char>,
    data: Seq<u8>,
)
    ensures
        !entries.contains_key(uri) ==> with_cached_data(entries, uri, data) == entries,
        with_cached_data(entries, uri, data).dom() == entries.dom(),
        entries.contains_key(uri) ==> with_cached_data(entries, uri, data)[uri] == (ImageEntryView {
            cached_data: Some(data),
            ..entries[uri]
        }),
        forall|other: Seq<char>|
            other != uri && entries.contains_key(other) ==> with_cached_data(
                entries,
                uri,
                data,
            )[other] == entries[other],
{
}

/// No operation takes an entry out of the store, and none moves an
/// identifier in the list: a registration adds at most its own identifier,
/// at the end, and keeping bytes adds and removes nothing.
pub proof fn lemma_entries_stay(
    entries: Map<Seq<char>, ImageEntryView>,
    uris: Seq<Seq<char>>,
    file_key: Seq<char>,
    node_id: Seq<char>,
    format: Seq<char>,
    scale: Scale,
    figma_url: Seq<char>,
    now: Timestamp,
    uri: Seq<char>,
    data: Seq<u8>,
)
    ensures
        entries.dom().subset_of(
            registered(entries, file_key, node_id, format, scale, figma_url, now).dom(),
        ),
        registered(entries, file_key, node_id, format, scale, figma_url, now).dom()
            == entries.dom().insert(resource_uri(file_key, node_id, format, scale)),
        with_cached_data(entries, uri, data).dom() == entries.dom(),
        uris.is_prefix_of(listed_with(uris, uri)),
        listed_with(uris, uri).to_set() == uris.to_set().insert(uri),
        uris.no_duplicates() ==> listed_with(uris, uri).no_duplicates(),
{
    assert(registered(entries, file_key, node_id, format, scale, figma_url, now).dom()
        =~= entries.dom().insert(resource_uri(file_key, node_id, format, scale)));
    let listed = listed_with(uris, uri);
    assert(listed.to_set() =~= uris.to_set().insert(uri)) by {
        assert forall|k: Seq<char>| listed.to_set().contains(k) implies uris.to_set().insert(uri).contains(k) by {
            let i = choose|i: int| 0 <= i < listed.len() && listed[i] == k;
            if i < uris.len() {
                assert(uris[i] == k);
            }
        }
        assert forall|k: Seq<char>| uris.to_set().insert(uri).contains(k) implies listed.to_set().contains(k) by {
            if uris.contains(k) {
                let i = choose|i: int| 0 <= i < uris.len() && uris[i] == k;
                assert(listed[i] == k);
            } else {
                assert(listed[listed.len() - 1] == k);
            }
        }
    }
}

/// A download address is good at the moment of the export and for the 3600
/// seconds that follow, the last moment included, and expired as soon as
/// more than 3600 seconds have passed. It also counts as expired at any time
/// before the export.
pub proof fn lemma_expiry_window(export_time: Timestamp, now: Timestamp)
    ensures
        !expired(export_time, export_time),
        expired(export_time, now) <==> (now.nanos_since_epoch() < export_time.nanos_since_epoch()
            || now.nanos_since_epoch() - export_time.nanos_since_epoch() > URL_LIFETIME_SECS
            * NANOS_PER_SEC),
{
}

/// A fresh entry is in the state `Registered` at the moment of its export.
/// An entry leaves that state for `Materialized` only by getting bytes, and
/// an entry that holds bytes is `Materialized` at every time: it never
/// expires.
pub proof fn lemma_entry_states(entry: ImageEntryView, data: Seq<u8>, now: Timestamp, later: Timestamp)
    ensures
        entry.cached_data is None ==> state_of(entry, entry.export_time) == EntryState::Registered,
        entry.cached_data is None ==> state_of(entry, now) != EntryState::Materialized,
        state_of(ImageEntryView { cached_data: Some(data), ..entry }, now) == EntryState::Materialized,
        state_of(entry, now) == EntryState::Materialized ==> state_of(entry, later)
            == EntryState::Materialized,
        state_of(entry, now) == EntryState::Expired && later.nanos_since_epoch()
            >= now.nanos_since_epoch() && now.nanos_since_epoch()
            >= entry.export_time.nanos_since_epoch() ==> state_of(entry, later)
            == EntryState::Expired,
{
    lemma_expiry_window(entry.export_time, now);
    lemma_expiry_window(entry.export_time, later);
}

/// The media type does not depend on the case of the letters of the format.
pub proof fn lemma_mime_type_ignores_case(a: Seq<char>, b: Seq<char>)
    requires
        lowered(a) == lowered(b),
    ensures
        mime_type_of(a) == mime_type_of(b),
        mime_type_of(lowered(a)) == mime_type_of(a),
{
    assert(lowered(lowered(a)) =~= lowered(a));
}

/// A format that is none of the known ones, whatever its case, has the
/// media type of arbitrary bytes.
pub proof fn lemma_mime_type_default(format: Seq<char>)
    requires
        lowered(format) != "png"@,
        lowered(format) != "jpg"@,
        lowered(format) != "jpeg"@,
        lowered(format) != "svg"@,
        lowered(format) != "pdf"@,
    ensures
        mime_type_of(format) == "application/octet-stream"@,
{
}

} // verus!
