//! The decisions of the request dispatcher.
//!
//! The dispatcher takes the requests of the agent host. Talking to the
//! service and fetching bytes is left to the caller; this module decides
//! what is to be done before and after: which step a read takes, what a
//! fetch that has ended means for the reader and for the store, which
//! images of an export are registered, and what is shown to the host.

use crate::error::Error;
use crate::error::ErrorView;
use crate::figma::client::is_success;
use crate::figma::client::status_is_success;
use crate::figma::image_cache::EntryState;
use crate::figma::image_cache::ImageCache;
use crate::figma::image_cache::ImageEntry;
use crate::figma::image_cache::ImageEntryView;
use crate::figma::image_cache::fresh_entry;
use crate::figma::image_cache::keyed_by_uri;
use crate::figma::image_cache::listed_with;
use crate::figma::image_cache::mime_type_of;
use crate::figma::image_cache::not_found_message;
use crate::figma::image_cache::registered;
use crate::figma::image_cache::resource_uri;
use crate::figma::image_cache::state_of;
use crate::figma::image_cache::with_cached_data;
use crate::json::member_strings;
use crate::json::member_strings_of;
use crate::json::pretty_text;
use crate::json::pretty_text_of;
use crate::scale::ONE_BITS;
use crate::scale::Scale;
use crate::text::joined;
use crate::text::lemma_parts_are_parts;
use crate::text::lemma_split_of_joined;
use crate::text::split_trimmed;
use crate::text::texts;
use crate::text::trimmed_parts;
use crate::timestamp::Timestamp;
use base64::Engine;
use base64::engine::general_purpose::STANDARD;
use serde_json::Value;
use vstd::prelude::*;
use vstd::string::*;

verus! {

/// What the reader of a resource has to do next.
#[derive(Debug)]
pub enum ReadStep {
    /// The bytes are at hand: nothing has to be fetched.
    Serve { data: Vec<u8>, format: String },
    /// The bytes have to be fetched from `url`, and `finish_read` has to be
    /// told how that went.
    Download { url: String, format: String },
    /// The read fails.
    Fail(Error),
}

/// What a `ReadStep` holds, as mathematical values.
pub enum ReadStepView {
    Serve { data: Seq<u8>, format: Seq<char> },
    Download { url: Seq<char>, format: Seq<char> },
    Fail(ErrorView),
}

impl View for ReadStep {
    type V = ReadStepView;

    open spec fn view(&self) -> ReadStepView {
        match self {
            ReadStep::Serve { data, format } => ReadStepView::Serve { data: data@, format: format@ },
            ReadStep::Download { url, format } => ReadStepView::Download { url: url@, format: format@ },
            ReadStep::Fail(e) => ReadStepView::Fail(e@),
        }
    }
}

/// How an attempt to fetch the bytes of a resource went.
#[derive(Debug)]
pub enum Download {
    /// No answer came. The text says why.
    SendFailed(String),
    /// An answer came, with the status `code`, which reads `status`. `body`
    /// holds the bytes that came with it, or says why they could not be read.
    Answered { code: u16, status: String, body: Result<Vec<u8>, String> },
}

/// What a `Download` holds, as mathematical values.
pub enum DownloadView {
    SendFailed(Seq<char>),
    Answered { code: u16, status: Seq<char>, body: Result<Seq<u8>, Seq<char>> },
}

impl View for Download {
    type V = DownloadView;

    open spec fn view(&self) -> DownloadView {
        match self {
            Download::SendFailed(reason) => DownloadView::SendFailed(reason@),
            Download::Answered { code, status, body } => DownloadView::Answered {
                code: *code,
                status: status@,
                body: match body {
                    Ok(data) => Ok(data@),
                    Err(reason) => Err(reason@),
                },
            },
        }
    }
}

/// The message for an entry whose download address is past its lifetime.
pub open spec fn expired_message() -> Seq<char> {
    "Figma URL has expired. Please re-export the image."@
}

/// The first step of reading the resource `uri` at the time `now`.
///
/// An unknown identifier fails. An entry that holds bytes is served from
/// them, however old it is. An entry without bytes is fetched from its
/// download address while that is good, and fails once it is expired.
pub open spec fn first_step(
    entries: Map<Seq<char>, ImageEntryView>,
    uri: Seq<char>,
    now: Timestamp,
) -> ReadStepView {
    if !entries.contains_key(uri) {
        ReadStepView::Fail(ErrorView::NotFound(not_found_message(uri)))
    } else {
        let entry = entries[uri];
        match state_of(entry, now) {
            EntryState::Materialized => ReadStepView::Serve {
                data: entry.cached_data->0,
                format: entry.format,
            },
            EntryState::Expired => ReadStepView::Fail(ErrorView::Expired(expired_message())),
            EntryState::Registered => ReadStepView::Download { url: entry.figma_url, format: entry.format },
        }
    }
}

/// What the reader gets once the fetch has ended as `download` says: the
/// bytes of an answer that stands for success, else an error.
pub open spec fn read_outcome(download: DownloadView) -> Result<Seq<u8>, ErrorView> {
    match download {
        DownloadView::SendFailed(reason) => Err(
            ErrorView::Network("Failed to download image: "@ + reason),
        ),
        DownloadView::Answered { code, status, body } => if !is_success(code) {
            Err(ErrorView::Network("Failed to download image: HTTP "@ + status))
        } else {
            match body {
                Ok(data) => Ok(data),
                Err(reason) => Err(ErrorView::Network("Failed to read image data: "@ + reason)),
            }
        },
    }
}

/// The entries once the fetch for `uri` has ended as `download` says: the
/// bytes of a good answer are kept, if the entry is still there; a fetch
/// that failed changes nothing.
pub open spec fn entries_after_read(
    entries: Map<Seq<char>, ImageEntryView>,
    uri: Seq<char>,
    download: DownloadView,
) -> Map<Seq<char>, ImageEntryView> {
    match read_outcome(download) {
        Ok(data) => with_cached_data(entries, uri, data),
        Err(_) => entries,
    }
}

/// The views of the two sides of a result that holds bytes.
pub open spec fn bytes_result_view(r: Result<Vec<u8>, Error>) -> Result<Seq<u8>, ErrorView> {
    match r {
        Ok(data) => Ok(data@),
        Err(e) => Err(e@),
    }
}

/// Computes `first_step`.
pub fn begin_read(cache: &ImageCache, uri: &str, now: &Timestamp) -> (step: ReadStep)
    ensures
        step@ == first_step(cache@, uri@, *now),
        keyed_by_uri(cache@),
{
    match cache.get_entry(uri) {
        None => {
            let mut message = String::from_str("Resource not found: ");
            message.append(uri);
            ReadStep::Fail(Error::NotFound(message))
        },
        Some(entry) => {
            let expired = ImageCache::is_expired_at(&entry, now);
            match entry.cached_data {
                Some(data) => ReadStep::Serve { data, format: entry.format },
                None => {
                    if expired {
                        ReadStep::Fail(
                            Error::Expired(
                                String::from_str("Figma URL has expired. Please re-export the image."),
                            ),
                        )
                    } else {
                        ReadStep::Download { url: entry.figma_url, format: entry.format }
                    }
                },
            }
        },
    }
}

/// The first step of reading the resource `uri` now, by the system clock:
/// that of `begin_read` for the time that the clock shows, whatever that is.
pub fn begin_read_now(cache: &ImageCache, uri: &str) -> (step: ReadStep)
    ensures
        exists|now: Timestamp| step@ == #[trigger] first_step(cache@, uri@, now),
{
    let now = Timestamp::now();
    begin_read(cache, uri, &now)
}

/// Ends the read of `uri` that `begin_read` sent to fetch. The bytes of a
/// good answer are kept in the store and handed to the reader. A fetch that
/// failed leaves the store as it is.
pub fn finish_read(cache: &mut ImageCache, uri: &str, download: Download) -> (outcome: Result<Vec<u8>, Error>)
    ensures
        bytes_result_view(outcome) == read_outcome(download@),
        final(cache)@ == entries_after_read(old(cache)@, uri@, download@),
        final(cache).uris() == old(cache).uris(),
{
    match download {
        Download::SendFailed(reason) => {
            let mut message = String::from_str("Failed to download image: ");
            message.append(reason.as_str());
            Err(Error::Network(message))
        },
        Download::Answered { code, status, body } => {
            if !status_is_success(code) {
                let mut message = String::from_str("Failed to download image: HTTP ");
                message.append(status.as_str());
                Err(Error::Network(message))
            } else {
                match body {
                    Ok(data) => {
                        let _ = cache.update_cached_data(uri, data.clone());
                        Ok(data)
                    },
                    Err(reason) => {
                        let mut message = String::from_str("Failed to read image data: ");
                        message.append(reason.as_str());
                        Err(Error::Network(message))
                    },
                }
            }
        },
    }
}

/// The standard base64 text of `data`, with padding, as the `base64` crate
/// writes it.
pub uninterp spec fn base64_standard(data: Seq<u8>) -> Seq<char>;

/// The base64 text of `len` bytes can be held in memory: the text has four
/// characters for every three bytes, begun or complete.
pub open spec fn can_encode(len: nat) -> bool {
    len / 3 * 4 + 4 <= isize::MAX
}

/// Encodes `data` with `Engine::encode` of the engine `STANDARD`. The text
/// is a function of the bytes alone, which `base64_standard` names. The call
/// panics where the length of the text cannot be held, so such an input is
/// left out.
#[verifier::external_body]
fn encode_base64(data: &Vec<u8>) -> (text: String)
    requires
        can_encode(data@.len()),
    ensures
        text@ == base64_standard(data@),
{
    STANDARD.encode(data)
}

/// The contents of a resource as they are handed to the reader.
#[derive(Debug)]
pub struct BlobContents {
    pub uri: String,
    pub mime_type: String,
    /// The bytes, in base64.
    pub blob: String,
}

/// The contents of the resource `uri` with the bytes `data` in the image
/// format `format`.
pub fn blob_contents(uri: &str, format: &str, data: &Vec<u8>) -> (contents: BlobContents)
    requires
        can_encode(data@.len()),
    ensures
        contents.uri@ == uri@,
        contents.mime_type@ == mime_type_of(format@),
        contents.blob@ == base64_standard(data@),
{
    BlobContents {
        uri: String::from_str(uri),
        mime_type: String::from_str(ImageCache::get_mime_type(format)),
        blob: encode_base64(data),
    }
}

/// The image format of an export for which none was asked.
pub open spec fn default_format() -> Seq<char> {
    "png"@
}

/// The depth of a request for which none was asked.
pub const DEFAULT_DEPTH: u32 = 1;

/// The format that was asked for, or `png`.
pub fn format_or_default(format: Option<String>) -> (chosen: String)
    ensures
        chosen@ == match format {
            Some(name) => name@,
            None => default_format(),
        },
{
    match format {
        Some(name) => name,
        None => String::from_str("png"),
    }
}

/// The scale that was asked for, or one.
pub fn scale_or_default(scale: Option<Scale>) -> (chosen: Scale)
    ensures
        chosen == match scale {
            Some(factor) => factor,
            None => (Scale { bits: ONE_BITS }),
        },
{
    match scale {
        Some(factor) => factor,
        None => Scale::one(),
    }
}

/// The depth that was asked for, or one.
pub fn depth_or_default(depth: Option<u32>) -> (chosen: u32)
    ensures
        chosen == match depth {
            Some(levels) => levels,
            None => DEFAULT_DEPTH,
        },
{
    match depth {
        Some(levels) => levels,
        None => DEFAULT_DEPTH,
    }
}

/// The node ids of a list that is written with commas: the parts between
/// the commas, each without the white space at its two ends.
pub fn split_node_ids(node_ids: &str) -> (ids: Vec<String>)
    ensures
        texts(ids@) == trimmed_parts(node_ids@, 0, ','),
{
    split_trimmed(node_ids, ',')
}

/// One image of an answer to an export: the node, and the address at which
/// its image can be fetched, if the service gave one.
pub struct ExportedImage {
    pub node_id: String,
    pub url: Option<String>,
}

/// What an `ExportedImage` holds, as mathematical values.
pub struct ExportedImageView {
    pub node_id: Seq<char>,
    pub url: Option<Seq<char>>,
}

impl View for ExportedImage {
    type V = ExportedImageView;

    open spec fn view(&self) -> ExportedImageView {
        ExportedImageView {
            node_id: self.node_id@,
            url: match self.url {
                Some(address) => Some(address@),
                None => None,
            },
        }
    }
}

/// The views of a list of images.
pub open spec fn image_views(images: Seq<ExportedImage>) -> Seq<ExportedImageView> {
    Seq::new(images.len(), |i: int| images[i]@)
}

/// The entries after the images of an export have been registered, one
/// after the other. An image without an address is passed over.
pub open spec fn registered_all(
    entries: Map<Seq<char>, ImageEntryView>,
    file_key: Seq<char>,
    format: Seq<char>,
    scale: Scale,
    images: Seq<ExportedImageView>,
    now: Timestamp,
) -> Map<Seq<char>, ImageEntryView>
    decreases images.len(),
{
    if images.len() == 0 {
        entries
    } else {
        let before = registered_all(entries, file_key, format, scale, images.drop_last(), now);
        match images.last().url {
            Some(url) => registered(before, file_key, images.last().node_id, format, scale, url, now),
            None => before,
        }
    }
}

/// The identifiers in the order of their first registration, after the
/// images of an export have been registered.
pub open spec fn listed_all(
    uris: Seq<Seq<char>>,
    file_key: Seq<char>,
    format: Seq<char>,
    scale: Scale,
    images: Seq<ExportedImageView>,
) -> Seq<Seq<char>>
    decreases images.len(),
{
    if images.len() == 0 {
        uris
    } else {
        let before = listed_all(uris, file_key, format, scale, images.drop_last());
        match images.last().url {
            Some(url) => listed_with(before, resource_uri(file_key, images.last().node_id, format, scale)),
            None => before,
        }
    }
}

/// The identifiers under which the images of an export are registered, in
/// the order of the list: one for each image that has an address.
pub open spec fn export_uris(
    file_key: Seq<char>,
    format: Seq<char>,
    scale: Scale,
    images: Seq<ExportedImageView>,
) -> Seq<Seq<char>>
    decreases images.len(),
{
    if images.len() == 0 {
        Seq::<Seq<char>>::empty()
    } else {
        let before = export_uris(file_key, format, scale, images.drop_last());
        match images.last().url {
            Some(url) => before.push(resource_uri(file_key, images.last().node_id, format, scale)),
            None => before,
        }
    }
}

/// Registers the images of an export that was made at the time `now`, in
/// the order of the list, and returns the identifiers under which they now
/// stand.
pub fn register_exports_at(
    cache: &mut ImageCache,
    file_key: &str,
    format: &str,
    scale: Scale,
    images: &Vec<ExportedImage>,
    now: Timestamp,
) -> (uris: Vec<String>)
    ensures
        final(cache)@ == registered_all(old(cache)@, file_key@, format@, scale, image_views(images@), now),
        final(cache).uris() == listed_all(old(cache).uris(), file_key@, format@, scale, image_views(images@)),
        texts(uris@) == export_uris(file_key@, format@, scale, image_views(images@)),
{
    let mut uris: Vec<String> = Vec::new();
    let mut i: usize = 0;
    while i < images.len()
        invariant
            i <= images.len(),
            cache@ == registered_all(
                old(cache)@,
                file_key@,
                format@,
                scale,
                image_views(images@).take(i as int),
                now,
            ),
            cache.uris() == listed_all(
                old(cache).uris(),
                file_key@,
                format@,
                scale,
                image_views(images@).take(i as int),
            ),
            texts(uris@) == export_uris(file_key@, format@, scale, image_views(images@).take(i as int)),
        decreases images.len() - i,
    {
        proof {
            let next = image_views(images@).take(i + 1);
            assert(next.drop_last() =~= image_views(images@).take(i as int));
        }
        if let Some(url) = &images[i].url {
            let uri = cache.register_export_at(
                String::from_str(file_key),
                images[i].node_id.clone(),
                String::from_str(format),
                scale,
                url.clone(),
                now,
            );
            uris.push(uri);
        }
        i += 1;
    }
    proof {
        assert(image_views(images@).take(images@.len() as int) =~= image_views(images@));
    }
    uris
}

/// Registers the images of an export that was made now, by the system
/// clock: what `register_exports_at` does for the time that the clock shows.
pub fn register_exports(
    cache: &mut ImageCache,
    file_key: &str,
    format: &str,
    scale: Scale,
    images: &Vec<ExportedImage>,
) -> (uris: Vec<String>)
    ensures
        exists|now: Timestamp|
            final(cache)@ == #[trigger] registered_all(
                old(cache)@,
                file_key@,
                format@,
                scale,
                image_views(images@),
                now,
            ),
        final(cache).uris() == listed_all(old(cache).uris(), file_key@, format@, scale, image_views(images@)),
        texts(uris@) == export_uris(file_key@, format@, scale, image_views(images@)),
{
    let now = Timestamp::now();
    register_exports_at(cache, file_key, format, scale, images, now)
}

/// What is shown of a resource in a listing.
#[derive(Debug)]
pub struct ResourceInfo {
    pub uri: String,
    pub name: String,
    pub description: String,
    pub mime_type: String,
    /// The number of bytes that are kept, if any are.
    pub size: Option<u32>,
}

/// The name under which the image of a node is listed.
pub open spec fn resource_name(node_id: Seq<char>) -> Seq<char> {
    "Node "@ + node_id + " Export"@
}

/// The description under which an image is listed. `scale_text` is the
/// scale of the image, written as a decimal number.
pub open spec fn resource_description(
    file_key: Seq<char>,
    format: Seq<char>,
    scale_text: Seq<char>,
) -> Seq<char> {
    "Exported from Figma file "@ + file_key + " as "@ + format + " ("@ + scale_text + "x scale)"@
}

/// The size that is listed for `len` bytes: their number, as far as 32 bits
/// hold it.
pub open spec fn listed_size(len: nat) -> u32 {
    (len % 0x1_0000_0000) as u32
}

/// What is shown in a listing of the entry that is kept under `uri`.
/// `scale_text` is the scale of the entry, written as a decimal number.
pub fn describe_resource(uri: &str, entry: &ImageEntry, scale_text: &str) -> (info: ResourceInfo)
    ensures
        info.uri@ == uri@,
        info.name@ == resource_name(entry.node_id@),
        info.description@ == resource_description(entry.file_key@, entry.format@, scale_text@),
        info.mime_type@ == mime_type_of(entry.format@),
        info.size == match entry.cached_data {
            Some(data) => Some(listed_size(data@.len())),
            None => None,
        },
{
    let mut name = String::from_str("Node ");
    name.append(entry.node_id.as_str());
    name.append(" Export");
    let mut description = String::from_str("Exported from Figma file ");
    description.append(entry.file_key.as_str());
    description.append(" as ");
    description.append(entry.format.as_str());
    description.append(" (");
    description.append(scale_text);
    description.append("x scale)");
    let size: Option<u32> = match &entry.cached_data {
        Some(data) => {
            let len: u64 = data.len() as u64;
            Some((len % 0x1_0000_0000) as u32)
        },
        None => None,
    };
    ResourceInfo {
        uri: String::from_str(uri),
        name,
        description,
        mime_type: String::from_str(ImageCache::get_mime_type(entry.format.as_str())),
        size,
    }
}

/// The operations that the dispatcher offers.
#[derive(Clone, Copy, Debug, PartialEq, Eq, Structural)]
pub enum Tool {
    ParseUrl,
    GetFile,
    GetFileNodes,
    ExportImages,
    GetMe,
}

/// The words that introduce the failure of each operation.
pub open spec fn failure_label(tool: Tool) -> Seq<char> {
    match tool {
        Tool::ParseUrl => "Error parsing URL: "@,
        Tool::GetFile => "Error fetching file: "@,
        Tool::GetFileNodes => "Error fetching file nodes: "@,
        Tool::ExportImages => "Error exporting images: "@,
        Tool::GetMe => "Error fetching user info: "@,
    }
}

/// The text that is shown when an operation has failed: the label of the
/// operation, then the text of the error.
pub fn failure_text(tool: Tool, error: &Error) -> (shown: String)
    ensures
        shown@ == failure_label(tool) + error.text(),
{
    let label: &str = match tool {
        Tool::ParseUrl => "Error parsing URL: ",
        Tool::GetFile => "Error fetching file: ",
        Tool::GetFileNodes => "Error fetching file nodes: ",
        Tool::ExportImages => "Error exporting images: ",
        Tool::GetMe => "Error fetching user info: ",
    };
    let mut shown = String::from_str(label);
    let text = error.to_string();
    shown.append(text.as_str());
    shown
}

/// The name of the member in which the answer to an export lists the
/// images.
pub open spec fn images_key() -> Seq<char> {
    "images"@
}

/// The images that the answer to an export lists: the members of its
/// object `images`. An answer without such an object lists none.
pub open spec fn images_of(payload: Value) -> Seq<ExportedImageView> {
    match member_strings_of(payload, images_key()) {
        Some(members) => Seq::new(
            members.len(),
            |i: int| ExportedImageView { node_id: members[i].0, url: members[i].1 },
        ),
        None => Seq::<ExportedImageView>::empty(),
    }
}

/// Computes `images_of`.
pub fn exported_images(payload: &Value) -> (images: Vec<ExportedImage>)
    ensures
        image_views(images@) == images_of(*payload),
{
    match member_strings(payload, "images") {
        Some(images) => images,
        None => Vec::new(),
    }
}

/// Registers the images that the answer to an export lists, for an export
/// that was made at the time `now`, and returns the identifiers under which
/// they now stand.
pub fn register_payload_at(
    cache: &mut ImageCache,
    file_key: &str,
    format: &str,
    scale: Scale,
    payload: &Value,
    now: Timestamp,
) -> (uris: Vec<String>)
    ensures
        final(cache)@ == registered_all(old(cache)@, file_key@, format@, scale, images_of(*payload), now),
        final(cache).uris() == listed_all(old(cache).uris(), file_key@, format@, scale, images_of(*payload)),
        texts(uris@) == export_uris(file_key@, format@, scale, images_of(*payload)),
{
    let images = exported_images(payload);
    register_exports_at(cache, file_key, format, scale, &images, now)
}

/// The text that is shown for a payload that could not be written: the
/// words of the error after a label.
pub open spec fn unwritable_text(reason: Seq<char>) -> Seq<char> {
    "Serialization error: "@ + reason
}

/// The text that is shown for a payload: the payload over several lines
/// where `written` holds it, else what `unwritable_text` makes of the
/// reason.
pub fn shown_text(written: Result<String, String>) -> (shown: String)
    ensures
        shown@ == match written {
            Ok(text) => text@,
            Err(reason) => unwritable_text(reason@),
        },
{
    match written {
        Ok(text) => text,
        Err(reason) => {
            let mut shown = String::from_str("Serialization error: ");
            shown.append(reason.as_str());
            shown
        },
    }
}

/// The text that is shown for a payload: the payload written over several
/// lines. Where it cannot be written, the text says so.
pub fn render_payload(payload: &Value) -> (shown: String)
    ensures
        shown@ == match pretty_text_of(*payload) {
            Ok(text) => text,
            Err(reason) => unwritable_text(reason),
        },
{
    shown_text(pretty_text(payload))
}

/// The first step of a read follows the state of the entry: bytes that are
/// kept are served, a good address is fetched from, and an expired entry
/// fails. Nothing is fetched for an entry that holds bytes.
pub proof fn lemma_first_step_by_state(
    entries: Map<Seq<char>, ImageEntryView>,
    uri: Seq<char>,
    now: Timestamp,
)
    ensures
        first_step(entries, uri, now) is Serve <==> entries.contains_key(uri) && state_of(entries[uri], now)
            == EntryState::Materialized,
        first_step(entries, uri, now) is Download <==> entries.contains_key(uri) && state_of(
            entries[uri],
            now,
        ) == EntryState::Registered,
        first_step(entries, uri, now) matches ReadStepView::Fail(e) ==> (e is NotFound
            <==> !entries.contains_key(uri)) && (e is Expired <==> entries.contains_key(uri) && state_of(
            entries[uri],
            now,
        ) == EntryState::Expired),
{
}

/// Once the bytes of a good answer have been kept for an entry, every later
/// read of it is served from them, at whatever time: nothing is fetched a
/// second time, and the entry does not expire.
pub proof fn lemma_read_after_download(
    entries: Map<Seq<char>, ImageEntryView>,
    uri: Seq<char>,
    code: u16,
    status: Seq<char>,
    data: Seq<u8>,
    later: Timestamp,
)
    requires
        entries.contains_key(uri),
        is_success(code),
    ensures
        first_step(
            entries_after_read(entries, uri, DownloadView::Answered { code, status, body: Ok(data) }),
            uri,
            later,
        ) == (ReadStepView::Serve { data, format: entries[uri].format }),
{
}

/// A fetch that failed changes nothing, so the next read takes the step
/// that it would have taken without it. An entry gets bytes by no other way
/// than a fetch that succeeded.
pub proof fn lemma_failed_download_changes_nothing(
    entries: Map<Seq<char>, ImageEntryView>,
    uri: Seq<char>,
    download: DownloadView,
    other: Seq<char>,
)
    ensures
        read_outcome(download) is Err ==> entries_after_read(entries, uri, download) == entries,
        entries_after_read(entries, uri, download).dom() == entries.dom(),
        entries.contains_key(other) && entries[other].cached_data is None && entries_after_read(
            entries,
            uri,
            download,
        )[other].cached_data is Some ==> other == uri && read_outcome(download) is Ok,
{
}

/// Registering the images of an export never gives an entry bytes: each
/// entry that it touches is fresh.
pub proof fn lemma_export_keeps_no_bytes(
    entries: Map<Seq<char>, ImageEntryView>,
    file_key: Seq<char>,
    format: Seq<char>,
    scale: Scale,
    images: Seq<ExportedImageView>,
    now: Timestamp,
    uri: Seq<char>,
)
    ensures
        ({
            let after = registered_all(entries, file_key, format, scale, images, now);
            &&& entries.contains_key(uri) ==> after.contains_key(uri)
            &&& after.contains_key(uri) ==> (entries.contains_key(uri) && after[uri] == entries[uri])
                || after[uri] == fresh_entry(
                after[uri].file_key,
                after[uri].node_id,
                after[uri].format,
                after[uri].scale,
                after[uri].figma_url,
                now,
            )
        }),
    decreases images.len(),
{
    if images.len() > 0 {
        lemma_export_keeps_no_bytes(entries, file_key, format, scale, images.drop_last(), now, uri);
    }
}

/// The node ids that are read from a list can be written with commas and
/// read again, and are then the same ids: what the dispatcher hands to the
/// gateway is what the gateway writes into the address.
pub proof fn lemma_node_ids_read_back(list: Seq<char>)
    ensures
        trimmed_parts(joined(trimmed_parts(list, 0, ','), ","@), 0, ',') == trimmed_parts(list, 0, ','),
{
    reveal_strlit(",");
    assert(","@ =~= seq![',']);
    lemma_parts_are_parts(list, 0, ',');
    lemma_split_of_joined(trimmed_parts(list, 0, ','), ',');
}

} // verus!
