use vstd::prelude::*;

verus! {

/// Cover-art metadata that a relationship record may carry.
#[derive(Debug, Clone, PartialEq, Eq)]
pub struct CoverImageAttributes {
    pub file_name: String,
}

/// One relationship record of a manga returned by the remote source; only
/// some relationships carry cover metadata.
#[derive(Debug, Clone, PartialEq, Eq)]
pub struct Relationship {
    pub attributes: Option<CoverImageAttributes>,
}

/// One manga record of a search response, as plain values.
#[derive(Debug, Clone, PartialEq, Eq)]
pub struct MangaData {
    pub id: String,
    pub title: String,
    pub description: String,
    pub tags: Vec<String>,
    pub relationships: Vec<Relationship>,
}

/// A successful search response from the remote source.
#[derive(Debug, Clone, PartialEq, Eq)]
pub struct SearchMangaResponse {
    pub data: Vec<MangaData>,
}

/// Messages that the background stages send back to the page, one per
/// completed stage. `B` is the raw-byte payload of a finished cover fetch and
/// `I` the raster image produced by a finished decode; the page never looks
/// inside either, it only routes them by the manga id they are tagged with.
#[derive(Debug, Clone, PartialEq)]
pub enum SearchPageEvents<B, I> {
    /// A cover finished decoding (`None`: the decode failed).
    LoadCover(Option<I>, String),
    /// A cover fetch finished and its bytes await decoding (`None`: the fetch
    /// failed, or the record had no cover to fetch).
    DecodeImage(Option<B>, String),
    /// The search finished (`None`: it failed or found nothing).
    LoadMangasFound(Option<SearchMangaResponse>),
}

/// Work that the caller must start after an action or a tick: the page
/// decides, the surrounding runtime performs.
#[derive(Debug, Clone, PartialEq)]
pub enum PipelineTask<B, I> {
    /// Fetch this manga's cover bytes and report back with `DecodeImage`.
    FetchCover { manga_id: String, file_name: String },
    /// Send `DecodeImage(None, manga_id)` on the page's event channel: this
    /// record carries no cover metadata, so its pipeline ends before it starts.
    NotifyNoCover { manga_id: String },
    /// Decode `bytes` off the UI thread and report back with `LoadCover`.
    DecodeCover { manga_id: String, bytes: B },
    /// Prepare a terminal protocol handle from `image` and start this item's
    /// resize worker; the handle arrives back through a redraw.
    PrepareCover { manga_id: String, image: I },
}

/// The cover file name of a manga record: the one named by the first
/// relationship that carries attributes, if any does.
pub open spec fn cover_file(rels: Seq<Relationship>) -> Option<String>
    decreases rels.len(),
{
    if rels.len() == 0 {
        None
    } else {
        match rels[0].attributes {
            Some(a) => Some(a.file_name),
            None => cover_file(rels.drop_first()),
        }
    }
}

/// Finds the cover file name of a manga record, scanning its relationships
/// in order for the first one that carries attributes.
pub fn find_cover_file(rels: &Vec<Relationship>) -> (r: Option<String>)
    ensures
        r == cover_file(rels@),
{
    let mut i: usize = 0;
    assert(rels@.skip(0) =~= rels@);
    while i < rels.len()
        invariant
            i <= rels@.len(),
            cover_file(rels@) == cover_file(rels@.skip(i as int)),
        decreases rels@.len() - i,
    {
        match &rels[i].attributes {
            Some(a) => {
                return Some(a.file_name.clone());
            },
            None => {
                assert(rels@.skip(i as int).drop_first() =~= rels@.skip(i + 1));
                i = i + 1;
            },
        }
    }
    None
}

/// Turns the outcome of a search call into the one event that the search
/// task reports: a failed call and a call that found nothing both collapse
/// to `LoadMangasFound(None)`.
pub fn search_event<B, I>(response: Option<SearchMangaResponse>) -> (e: SearchPageEvents<B, I>)
    ensures
        match response {
            Some(r) => e == if r.data@.len() == 0 {
                SearchPageEvents::<B, I>::LoadMangasFound(None)
            } else {
                SearchPageEvents::<B, I>::LoadMangasFound(Some(r))
            },
            None => e == SearchPageEvents::<B, I>::LoadMangasFound(None),
        },
{
    match response {
        Some(r) => {
            if r.data.len() == 0 {
                SearchPageEvents::LoadMangasFound(None)
            } else {
                SearchPageEvents::LoadMangasFound(Some(r))
            }
        },
        None => SearchPageEvents::LoadMangasFound(None),
    }
}

} // verus!
