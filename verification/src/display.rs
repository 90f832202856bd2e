//! The resolved display payload for one queue entry, and its
//! mathematical model.

use vstd::prelude::*;

verus! {

/// Which resolver last supplied an entry's display data: the on-disk
/// metadata scanner or the library database.
#[derive(Clone, Copy, Debug, PartialEq, Eq, Structural)]
pub enum DataSource {
    Metadata,
    Library,
}

/// A plain handle standing for a shared cover-art image resource. The
/// resolver only moves it between records and cells; what it renders as
/// is the host's business.
#[derive(Clone, Copy, Debug, PartialEq, Eq, Structural)]
pub struct ImageHandle {
    pub id: u64,
}

/// The resolved visual/text payload for one queue entry: cover image,
/// display title, artist name, and the provenance of the value.
#[derive(Debug, PartialEq)]
pub struct QueueItemUIData {
    pub image: Option<ImageHandle>,
    pub name: Option<String>,
    pub artist_name: Option<String>,
    pub source: DataSource,
}

/// Model of `QueueItemUIData`: strings as character sequences.
pub ghost struct DisplayModel {
    pub image: Option<ImageHandle>,
    pub name: Option<Seq<char>>,
    pub artist_name: Option<Seq<char>>,
    pub source: DataSource,
}

pub open spec fn view_str_opt(v: Option<String>) -> Option<Seq<char>> {
    match v {
        Some(s) => Some(s@),
        None => None,
    }
}

impl View for QueueItemUIData {
    type V = DisplayModel;

    open spec fn view(&self) -> DisplayModel {
        DisplayModel {
            image: self.image,
            name: view_str_opt(self.name),
            artist_name: view_str_opt(self.artist_name),
            source: self.source,
        }
    }
}

pub open spec fn view_display_opt(v: Option<QueueItemUIData>) -> Option<DisplayModel> {
    match v {
        Some(d) => Some(d@),
        None => None,
    }
}

/// The well-defined in-progress value written into a cell the moment
/// resolution starts: every field empty, provenance `Library`.
pub open spec fn placeholder() -> DisplayModel {
    DisplayModel { image: None, name: None, artist_name: None, source: DataSource::Library }
}

impl Clone for QueueItemUIData {
    /// Cloning keeps every field's value.
    fn clone(&self) -> (r: Self)
        ensures
            r@ == self@,
    {
        QueueItemUIData {
            image: self.image,
            name: match &self.name {
                Some(s) => Some(s.clone()),
                None => None,
            },
            artist_name: match &self.artist_name {
                Some(s) => Some(s.clone()),
                None => None,
            },
            source: self.source,
        }
    }
}

} // verus!
