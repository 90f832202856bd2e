//! Plain-value images of the library database's rows, as the resolver
//! reads them. The database itself lives outside this crate; the host
//! performs the lookups and hands the rows in as these records.

use crate::display::{view_str_opt, ImageHandle};
use vstd::prelude::*;

verus! {

/// A track row: the display title of the track.
#[derive(Debug, PartialEq)]
pub struct TrackRecord {
    pub title: String,
}

/// Model of `TrackRecord`.
pub ghost struct TrackModel {
    pub title: Seq<char>,
}

impl View for TrackRecord {
    type V = TrackModel;

    open spec fn view(&self) -> TrackModel {
        TrackModel { title: self.title@ }
    }
}

/// An album row, requested with its thumbnail projection: the thumbnail
/// (when the album has one) and the identifier of the album's artist.
#[derive(Debug, PartialEq)]
pub struct AlbumRecord {
    pub thumb: Option<ImageHandle>,
    pub artist_id: i64,
}

/// Model of `AlbumRecord`.
pub ghost struct AlbumModel {
    pub thumb: Option<ImageHandle>,
    pub artist_id: i64,
}

impl View for AlbumRecord {
    type V = AlbumModel;

    open spec fn view(&self) -> AlbumModel {
        AlbumModel { thumb: self.thumb, artist_id: self.artist_id }
    }
}

/// An artist row: the artist's display name, which a legitimate record
/// may lack.
#[derive(Debug, PartialEq)]
pub struct ArtistRecord {
    pub name: Option<String>,
}

/// Model of `ArtistRecord`.
pub ghost struct ArtistModel {
    pub name: Option<Seq<char>>,
}

impl View for ArtistRecord {
    type V = ArtistModel;

    open spec fn view(&self) -> ArtistModel {
        ArtistModel { name: view_str_opt(self.name) }
    }
}

/// The model of a lookup's outcome: `None` when the lookup failed.
pub open spec fn view_track_opt(v: Option<TrackRecord>) -> Option<TrackModel> {
    match v {
        Some(t) => Some(t@),
        None => None,
    }
}

pub open spec fn view_album_opt(v: Option<AlbumRecord>) -> Option<AlbumModel> {
    match v {
        Some(a) => Some(a@),
        None => None,
    }
}

pub open spec fn view_artist_opt(v: Option<ArtistRecord>) -> Option<ArtistModel> {
    match v {
        Some(a) => Some(a@),
        None => None,
    }
}

} // verus!
