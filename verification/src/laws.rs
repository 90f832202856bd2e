//! The resolver's laws: properties of whole resolution runs, proved over
//! the model transitions that the executable methods are proved to
//! follow.

use crate::display::{DataSource, DisplayModel};
use crate::queue::{
    artist_lookup_model, get_data_model, library_lookup_model, scan_event_model, AfterArtist,
    AfterLibrary, EntryModel, RequestStep,
};
use crate::records::{AlbumModel, ArtistModel, TrackModel};
use vstd::prelude::*;

verus! {

/// One full resolution run, from `get_data` through whichever later
/// stages its steps ask for. The lookup arguments are what the database
/// would answer were it asked; an argument is only consumed when the run
/// reaches the stage that asks for it. Returns the entry as the run
/// leaves it, and whether the run ends by issuing the metadata-scan
/// fallback (a subscription plus one scan request).
pub open spec fn resolution_model(
    e: EntryModel,
    track: Option<TrackModel>,
    album: Option<AlbumModel>,
    artist: Option<ArtistModel>,
) -> (EntryModel, bool) {
    let opened = get_data_model(e);
    match opened.1 {
        RequestStep::AlreadyResolved => (opened.0, false),
        RequestStep::Fallback => (opened.0, true),
        RequestStep::LookupLibrary { .. } => {
            let after_library = library_lookup_model(opened.0, track, album);
            match after_library.1 {
                AfterLibrary::Fallback => (after_library.0, true),
                AfterLibrary::LookupArtist { .. } => {
                    let after_artist = artist_lookup_model(after_library.0, artist);
                    (after_artist.0, after_artist.1 is Fallback)
                },
            }
        },
    }
}

/// Whether the artist lookup left the artist name empty: the lookup
/// failed, or the record legitimately has no name.
pub open spec fn artist_name_missing(artist: Option<ArtistModel>) -> bool {
    match artist {
        Some(a) => a.name is None,
        None => true,
    }
}

/// Law: requesting data is idempotent. After one `get_data` transition, an
/// immediate second one changes nothing and reports the entry already
/// resolved — so it starts no second lookup and issues no second
/// fallback subscription or scan request.
pub proof fn lemma_get_data_idempotent(e: EntryModel)
    ensures
        get_data_model(get_data_model(e).0).0 == get_data_model(e).0,
        get_data_model(get_data_model(e).0).1 == RequestStep::AlreadyResolved,
{
}

/// Law: the library database takes precedence. When both identifiers are
/// present and the database yields the track, the album and a named
/// artist, the run completes with the database's fields — title from the
/// track, image from the album's thumbnail, the artist's name — with
/// provenance `Library`, and no metadata-scan request is issued.
pub proof fn lemma_library_precedence(
    e: EntryModel,
    track: TrackModel,
    album: AlbumModel,
    artist: ArtistModel,
)
    requires
        e.data.value is None,
        e.db_id is Some,
        e.db_album_id is Some,
        artist.name is Some,
    ensures
        !resolution_model(e, Some(track), Some(album), Some(artist)).1,
        resolution_model(e, Some(track), Some(album), Some(artist)).0.data.value == Some(
            DisplayModel {
                image: album.thumb,
                name: Some(track.title),
                artist_name: artist.name,
                source: DataSource::Library,
            },
        ),
{
}

/// Law: the fallback fires exactly when the database cannot supply an
/// artist name — an identifier is absent, or a track or album lookup
/// fails, or the artist lookup yields no name. The run then ends by
/// issuing the metadata-scan request, and a completion event for the
/// entry's own path overwrites the cell wholesale with the event's data,
/// so its provenance becomes the event's (the scanner publishes
/// `Metadata`).
pub proof fn lemma_fallback_trigger(
    e: EntryModel,
    track: Option<TrackModel>,
    album: Option<AlbumModel>,
    artist: Option<ArtistModel>,
    d: DisplayModel,
)
    requires
        e.data.value is None,
        ({
            ||| e.db_id is None
            ||| e.db_album_id is None
            ||| track is None
            ||| album is None
            ||| artist_name_missing(artist)
        }),
    ensures
        resolution_model(e, track, album, artist).1,
        scan_event_model(resolution_model(e, track, album, artist).0, e.path, d).data.value
            == Some(d),
{
}

/// Law: path filtering. A completion event for any path other than the
/// entry's own never mutates the entry — neither its cell's value nor
/// its notification count.
pub proof fn lemma_path_filtering(e: EntryModel, event_path: Seq<char>, d: DisplayModel)
    requires
        event_path != e.path,
    ensures
        scan_event_model(e, event_path, d) == e,
{
}

} // verus!
