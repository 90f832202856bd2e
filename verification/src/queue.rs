//! One playback-queue entry and its three-stage resolution algorithm.
//!
//! An entry is the identity of one queue slot (file path plus optional
//! database identifiers) together with ownership of one reactive cell.
//! Resolution runs in stages; after each stage the entry tells the host
//! which outside action to perform, and the host hands the outcome back:
//!
//! * `get_data` memoizes: a non-empty cell is returned untouched.
//!   Otherwise it writes the placeholder and asks for stage A (a database
//!   lookup) when both identifiers are present, or for stage C (the
//!   metadata-scan fallback) when they are not.
//! * `apply_library_lookup` takes the track and album rows. Both present:
//!   title and thumbnail are written and the album's artist is to be
//!   looked up next. Either missing: stage A aborts silently and stage C
//!   follows.
//! * `apply_artist_lookup` takes the artist row. A named artist completes
//!   resolution; a failed lookup or a nameless artist leaves the artist
//!   name empty and falls back to stage C.
//! * `handle_scan_event` consumes one scan-completion event: on an exact
//!   path match the cell is overwritten wholesale with the event's data;
//!   any other path leaves the entry untouched.
//!
//! Each transition is also stated as a spec function on the entry's
//! model, and the executable methods are proved to follow them exactly.

use crate::display::{placeholder, DataSource, DisplayModel, QueueItemUIData};
use crate::reactive::{written, CellModel, ReactiveCell};
use crate::records::{
    view_album_opt, view_artist_opt, view_track_opt, AlbumModel, AlbumRecord, ArtistModel,
    ArtistRecord, TrackModel, TrackRecord,
};
use vstd::prelude::*;

verus! {

/// What the host must do after `get_data`.
#[derive(Clone, Copy, Debug, PartialEq, Eq, Structural)]
pub enum RequestStep {
    /// The cell already held a value: nothing was changed and no further
    /// work may be started.
    AlreadyResolved,
    /// Stage A: look the track and the album (with its thumbnail
    /// projection) up in the library database and hand the rows to
    /// `apply_library_lookup`.
    LookupLibrary { track_id: i64, album_id: i64 },
    /// Stage C: subscribe for scan completions on this entry's path and
    /// issue one fire-and-forget metadata-scan request.
    Fallback,
}

/// What the host must do after `apply_library_lookup`.
#[derive(Clone, Copy, Debug, PartialEq, Eq, Structural)]
pub enum AfterLibrary {
    /// Look the album's artist up and hand the row to
    /// `apply_artist_lookup`.
    LookupArtist { artist_id: i64 },
    /// A lookup failed: stage A is over and stage C follows.
    Fallback,
}

/// What the host must do after `apply_artist_lookup`.
#[derive(Clone, Copy, Debug, PartialEq, Eq, Structural)]
pub enum AfterArtist {
    /// The database had a usable full record: resolution is complete and
    /// no fallback is attempted.
    Complete,
    /// The artist name is still empty: stage C follows.
    Fallback,
}

/// Model of a queue entry: its identity and its cell.
pub ghost struct EntryModel {
    pub path: Seq<char>,
    pub db_id: Option<i64>,
    pub db_album_id: Option<i64>,
    pub data: CellModel,
}

/// The `get_data` transition. A non-empty cell is left untouched.
/// Otherwise the placeholder is written (one notification) and the next
/// step is the database lookup when both identifiers are present, the
/// fallback when either is absent.
pub open spec fn get_data_model(e: EntryModel) -> (EntryModel, RequestStep) {
    if e.data.value is Some {
        (e, RequestStep::AlreadyResolved)
    } else {
        let filled = EntryModel { data: written(e.data, Some(placeholder())), ..e };
        match (e.db_id, e.db_album_id) {
            (Some(t), Some(a)) => (filled, RequestStep::LookupLibrary { track_id: t, album_id: a }),
            _ => (filled, RequestStep::Fallback),
        }
    }
}

/// The stage A transition. Both rows present: the cell is overwritten
/// with the track's title and the album's thumbnail (one notification),
/// artist name still empty, provenance `Library`; the album's artist is
/// looked up next. Either row missing: the entry is untouched and stage C
/// follows.
pub open spec fn library_lookup_model(
    e: EntryModel,
    track: Option<TrackModel>,
    album: Option<AlbumModel>,
) -> (EntryModel, AfterLibrary) {
    match (track, album) {
        (Some(t), Some(al)) => {
            let d = DisplayModel {
                image: al.thumb,
                name: Some(t.title),
                artist_name: None,
                source: DataSource::Library,
            };
            (
                EntryModel { data: written(e.data, Some(d)), ..e },
                AfterLibrary::LookupArtist { artist_id: al.artist_id },
            )
        },
        _ => (e, AfterLibrary::Fallback),
    }
}

/// The stage A artist transition. When the cell holds a value, the row is
/// present and the artist has a name, that name is written into the
/// current value (one notification) and resolution is complete. In every
/// other case the entry is untouched and stage C follows.
pub open spec fn artist_lookup_model(
    e: EntryModel,
    artist: Option<ArtistModel>,
) -> (EntryModel, AfterArtist) {
    match (e.data.value, artist) {
        (Some(cur), Some(a)) => match a.name {
            Some(n) => {
                let d = DisplayModel { artist_name: Some(n), ..cur };
                (EntryModel { data: written(e.data, Some(d)), ..e }, AfterArtist::Complete)
            },
            None => (e, AfterArtist::Fallback),
        },
        _ => (e, AfterArtist::Fallback),
    }
}

/// The stage C transition. An event for exactly this entry's path
/// overwrites the cell wholesale with the event's data (one
/// notification); an event for any other path leaves the entry untouched.
pub open spec fn scan_event_model(e: EntryModel, event_path: Seq<char>, d: DisplayModel) -> EntryModel {
    if event_path == e.path {
        EntryModel { data: written(e.data, Some(d)), ..e }
    } else {
        e
    }
}

/// The invalidation transition: the cell is reset to empty and dependents
/// are notified exactly once.
pub open spec fn drop_data_model(e: EntryModel) -> EntryModel {
    EntryModel { data: written(e.data, None), ..e }
}

/// Identity for one playback-queue slot plus ownership of its reactive
/// cell. The path and the identifiers are immutable for the entry's
/// lifetime; only the cell changes.
pub struct QueueItemData {
    data: ReactiveCell,
    db_id: Option<i64>,
    db_album_id: Option<i64>,
    path: String,
}

impl View for QueueItemData {
    type V = EntryModel;

    closed spec fn view(&self) -> EntryModel {
        EntryModel {
            path: self.path@,
            db_id: self.db_id,
            db_album_id: self.db_album_id,
            data: self.data@,
        }
    }
}

impl QueueItemData {
    /// A fresh entry with an empty cell. The identifiers are present only
    /// when the entry originated from a library-backed queue addition.
    pub fn new(path: String, db_id: Option<i64>, db_album_id: Option<i64>) -> (r: Self)
        ensures
            r@ == (EntryModel {
                path: path@,
                db_id: db_id,
                db_album_id: db_album_id,
                data: CellModel { value: None, notifies: 0 },
            }),
    {
        QueueItemData { data: ReactiveCell::new(), db_id, db_album_id, path }
    }

    /// First half of the resolution algorithm: memoize, write the
    /// placeholder, and decide between stage A and stage C. Calling this
    /// again on an already-populated (even placeholder-only) cell changes
    /// nothing and starts no duplicate work.
    pub fn get_data(&mut self) -> (step: RequestStep)
        requires
            old(self)@.data.notifies < u64::MAX,
        ensures
            final(self)@ == get_data_model(old(self)@).0,
            step == get_data_model(old(self)@).1,
    {
        if self.data.read().is_some() {
            return RequestStep::AlreadyResolved;
        }
        self.data.write(
            Some(
                QueueItemUIData {
                    image: None,
                    name: None,
                    artist_name: None,
                    source: DataSource::Library,
                },
            ),
        );
        match (self.db_id, self.db_album_id) {
            (Some(track_id), Some(album_id)) => RequestStep::LookupLibrary { track_id, album_id },
            _ => RequestStep::Fallback,
        }
    }

    /// Stage A: apply the database's track and album rows, `None` standing
    /// for a failed lookup. Failures are swallowed: they merely send
    /// resolution to the fallback.
    pub fn apply_library_lookup(
        &mut self,
        track: Option<TrackRecord>,
        album: Option<AlbumRecord>,
    ) -> (next: AfterLibrary)
        requires
            old(self)@.data.notifies < u64::MAX,
        ensures
            final(self)@ == library_lookup_model(
                old(self)@,
                view_track_opt(track),
                view_album_opt(album),
            ).0,
            next == library_lookup_model(
                old(self)@,
                view_track_opt(track),
                view_album_opt(album),
            ).1,
    {
        match (track, album) {
            (Some(t), Some(al)) => {
                self.data.write(
                    Some(
                        QueueItemUIData {
                            image: al.thumb,
                            name: Some(t.title),
                            artist_name: None,
                            source: DataSource::Library,
                        },
                    ),
                );
                AfterLibrary::LookupArtist { artist_id: al.artist_id }
            },
            _ => AfterLibrary::Fallback,
        }
    }

    /// Stage A, artist half: apply the artist row, `None` standing for a
    /// failed lookup. Artist-name presence is the signal that the
    /// database had a usable full record; without it stage C follows.
    pub fn apply_artist_lookup(&mut self, artist: Option<ArtistRecord>) -> (next: AfterArtist)
        requires
            old(self)@.data.notifies < u64::MAX,
        ensures
            final(self)@ == artist_lookup_model(old(self)@, view_artist_opt(artist)).0,
            next == artist_lookup_model(old(self)@, view_artist_opt(artist)).1,
    {
        let updated: Option<QueueItemUIData> = match (self.data.read(), artist) {
            (Some(cur), Some(a)) => match a.name {
                Some(n) => Some(
                    QueueItemUIData {
                        image: cur.image,
                        name: match &cur.name {
                            Some(s) => Some(s.clone()),
                            None => None,
                        },
                        artist_name: Some(n),
                        source: cur.source,
                    },
                ),
                None => None,
            },
            _ => None,
        };
        match updated {
            Some(d) => {
                self.data.write(Some(d));
                AfterArtist::Complete
            },
            None => AfterArtist::Fallback,
        }
    }

    /// Stage C: consume one scan-completion event. Only an event whose
    /// path is exactly this entry's path mutates the cell, and it
    /// overwrites the whole value with the event's data; nothing is
    /// merged with what stage A may have written.
    pub fn handle_scan_event(&mut self, event_path: &String, data: &QueueItemUIData)
        requires
            old(self)@.data.notifies < u64::MAX,
        ensures
            final(self)@ == scan_event_model(old(self)@, event_path@, data@),
    {
        if *event_path == self.path {
            let copy = data.clone();
            self.data.write(Some(copy));
        }
    }

    /// Invalidate the entry: reset the cell to empty and notify
    /// dependents exactly once. In-flight fallback work is not cancelled;
    /// a late event will still match on path and repopulate the cell.
    pub fn drop_data(&mut self)
        requires
            old(self)@.data.notifies < u64::MAX,
        ensures
            final(self)@ == drop_data_model(old(self)@),
    {
        self.data.write(None);
    }

    /// The identifying path of the underlying audio file.
    pub fn get_path(&self) -> (r: &String)
        ensures
            r@ == self@.path,
    {
        &self.path
    }

    /// Read access to the entry's cell: the handle a UI consumer watches.
    pub fn data(&self) -> (r: &ReactiveCell)
        ensures
            r@ == self@.data,
    {
        &self.data
    }
}

} // verus!
