use queue_resolver::display::{DataSource, ImageHandle, QueueItemUIData};
use queue_resolver::queue::{AfterArtist, AfterLibrary, QueueItemData, RequestStep};
use queue_resolver::records::{AlbumRecord, ArtistRecord, TrackRecord};

fn placeholder_value() -> QueueItemUIData {
    QueueItemUIData { image: None, name: None, artist_name: None, source: DataSource::Library }
}

fn scanned(title: &str, artist: &str, image: Option<ImageHandle>) -> QueueItemUIData {
    QueueItemUIData {
        image,
        name: Some(String::from(title)),
        artist_name: Some(String::from(artist)),
        source: DataSource::Metadata,
    }
}

#[test]
fn new_entry_starts_empty() {
    let entry = QueueItemData::new(String::from("a.mp3"), None, None);
    assert_eq!(*entry.data().read(), None);
    assert_eq!(entry.data().notify_count(), 0);
    assert_eq!(entry.get_path(), "a.mp3");
}

#[test]
fn ids_absent_goes_to_fallback_with_placeholder() {
    let mut entry = QueueItemData::new(String::from("a.mp3"), None, None);
    let step = entry.get_data();
    assert_eq!(step, RequestStep::Fallback);
    assert_eq!(*entry.data().read(), Some(placeholder_value()));
    assert_eq!(entry.data().notify_count(), 1);

    let data = scanned("Found Title", "Found Artist", Some(ImageHandle { id: 4 }));
    entry.handle_scan_event(&String::from("a.mp3"), &data);
    assert_eq!(*entry.data().read(), Some(data));
    assert_eq!(
        entry.data().read().as_ref().unwrap().source,
        DataSource::Metadata
    );
    assert_eq!(entry.data().notify_count(), 2);
}

#[test]
fn one_id_absent_also_goes_to_fallback() {
    let mut entry = QueueItemData::new(String::from("a.mp3"), Some(5), None);
    assert_eq!(entry.get_data(), RequestStep::Fallback);
    let mut entry2 = QueueItemData::new(String::from("a.mp3"), None, Some(6));
    assert_eq!(entry2.get_data(), RequestStep::Fallback);
}

#[test]
fn full_library_hit_completes_without_fallback() {
    let mut entry = QueueItemData::new(String::from("a.mp3"), Some(5), Some(6));
    let step = entry.get_data();
    assert_eq!(step, RequestStep::LookupLibrary { track_id: 5, album_id: 6 });

    let track = TrackRecord { title: String::from("Song") };
    let album = AlbumRecord { thumb: Some(ImageHandle { id: 9 }), artist_id: 17 };
    let next = entry.apply_library_lookup(Some(track), Some(album));
    assert_eq!(next, AfterLibrary::LookupArtist { artist_id: 17 });

    let artist = ArtistRecord { name: Some(String::from("Artist")) };
    let done = entry.apply_artist_lookup(Some(artist));
    assert_eq!(done, AfterArtist::Complete);

    assert_eq!(
        *entry.data().read(),
        Some(QueueItemUIData {
            image: Some(ImageHandle { id: 9 }),
            name: Some(String::from("Song")),
            artist_name: Some(String::from("Artist")),
            source: DataSource::Library,
        })
    );
    // placeholder, track/album fields, artist field: three writes.
    assert_eq!(entry.data().notify_count(), 3);
}

#[test]
fn failed_track_lookup_falls_back_silently() {
    let mut entry = QueueItemData::new(String::from("a.mp3"), Some(5), Some(6));
    entry.get_data();
    let album = AlbumRecord { thumb: None, artist_id: 17 };
    let next = entry.apply_library_lookup(None, Some(album));
    assert_eq!(next, AfterLibrary::Fallback);
    assert_eq!(*entry.data().read(), Some(placeholder_value()));
}

#[test]
fn failed_album_lookup_falls_back_silently() {
    let mut entry = QueueItemData::new(String::from("a.mp3"), Some(5), Some(6));
    entry.get_data();
    let track = TrackRecord { title: String::from("Song") };
    let next = entry.apply_library_lookup(Some(track), None);
    assert_eq!(next, AfterLibrary::Fallback);
    assert_eq!(*entry.data().read(), Some(placeholder_value()));
}

#[test]
fn nameless_artist_falls_back_without_a_write() {
    let mut entry = QueueItemData::new(String::from("a.mp3"), Some(5), Some(6));
    entry.get_data();
    let track = TrackRecord { title: String::from("Song") };
    let album = AlbumRecord { thumb: None, artist_id: 17 };
    entry.apply_library_lookup(Some(track), Some(album));
    let notified = entry.data().notify_count();
    let done = entry.apply_artist_lookup(Some(ArtistRecord { name: None }));
    assert_eq!(done, AfterArtist::Fallback);
    assert_eq!(entry.data().notify_count(), notified);
    assert_eq!(entry.data().read().as_ref().unwrap().artist_name, None);
}

#[test]
fn partial_hit_is_overwritten_wholesale_by_scan_event() {
    let mut entry = QueueItemData::new(String::from("b.mp3"), Some(5), Some(6));
    entry.get_data();
    let track = TrackRecord { title: String::from("Song") };
    let album = AlbumRecord { thumb: Some(ImageHandle { id: 9 }), artist_id: 17 };
    entry.apply_library_lookup(Some(track), Some(album));
    let done = entry.apply_artist_lookup(None);
    assert_eq!(done, AfterArtist::Fallback);

    let after_stage_a = entry.data().read().as_ref().unwrap();
    assert_eq!(after_stage_a.name, Some(String::from("Song")));
    assert_eq!(after_stage_a.image, Some(ImageHandle { id: 9 }));
    assert_eq!(after_stage_a.artist_name, None);
    assert_eq!(after_stage_a.source, DataSource::Library);

    let d2 = scanned("Scanned Song", "Scanned Artist", None);
    entry.handle_scan_event(&String::from("b.mp3"), &d2);
    assert_eq!(*entry.data().read(), Some(d2));
}

#[test]
fn request_is_idempotent_even_on_a_placeholder() {
    let mut entry = QueueItemData::new(String::from("a.mp3"), None, None);
    let first = entry.get_data();
    assert_eq!(first, RequestStep::Fallback);
    let value_after_first = entry.data().read().clone();
    let notified_after_first = entry.data().notify_count();

    let second = entry.get_data();
    assert_eq!(second, RequestStep::AlreadyResolved);
    assert_eq!(*entry.data().read(), value_after_first);
    assert_eq!(entry.data().notify_count(), notified_after_first);
}

#[test]
fn invalidation_empties_and_notifies_exactly_once_per_call() {
    let mut entry = QueueItemData::new(String::from("a.mp3"), None, None);
    entry.get_data();
    let notified = entry.data().notify_count();
    entry.drop_data();
    assert_eq!(*entry.data().read(), None);
    assert_eq!(entry.data().notify_count(), notified + 1);
    entry.drop_data();
    assert_eq!(*entry.data().read(), None);
    assert_eq!(entry.data().notify_count(), notified + 2);
}

#[test]
fn event_for_another_path_never_mutates_the_cell() {
    let mut entry = QueueItemData::new(String::from("a.mp3"), None, None);
    entry.get_data();
    let notified = entry.data().notify_count();
    let data = scanned("Other", "Other", None);
    entry.handle_scan_event(&String::from("other.mp3"), &data);
    assert_eq!(*entry.data().read(), Some(placeholder_value()));
    assert_eq!(entry.data().notify_count(), notified);
}

#[test]
fn duplicate_matching_events_each_overwrite() {
    let mut entry = QueueItemData::new(String::from("a.mp3"), None, None);
    entry.get_data();
    let d1 = scanned("First", "A", None);
    let d2 = scanned("Second", "B", Some(ImageHandle { id: 2 }));
    entry.handle_scan_event(&String::from("a.mp3"), &d1);
    assert_eq!(*entry.data().read(), Some(d1));
    entry.handle_scan_event(&String::from("a.mp3"), &d2);
    assert_eq!(*entry.data().read(), Some(d2));
}

#[test]
fn invalidate_then_rerequest_repeats_stage_a() {
    let mut entry = QueueItemData::new(String::from("a.mp3"), Some(5), Some(6));
    entry.get_data();
    let track = TrackRecord { title: String::from("Song") };
    let album = AlbumRecord { thumb: Some(ImageHandle { id: 9 }), artist_id: 17 };
    entry.apply_library_lookup(Some(track), Some(album));
    let done = entry.apply_artist_lookup(Some(ArtistRecord { name: Some(String::from("Artist")) }));
    assert_eq!(done, AfterArtist::Complete);

    entry.drop_data();
    assert_eq!(*entry.data().read(), None);

    // the prior result is not reused: stage A is asked for from scratch
    let step = entry.get_data();
    assert_eq!(step, RequestStep::LookupLibrary { track_id: 5, album_id: 6 });
    assert_eq!(*entry.data().read(), Some(placeholder_value()));

    let track2 = TrackRecord { title: String::from("Song") };
    let album2 = AlbumRecord { thumb: Some(ImageHandle { id: 9 }), artist_id: 17 };
    let next = entry.apply_library_lookup(Some(track2), Some(album2));
    assert_eq!(next, AfterLibrary::LookupArtist { artist_id: 17 });
}

#[test]
fn late_event_after_invalidation_resurrects_the_cell() {
    let mut entry = QueueItemData::new(String::from("a.mp3"), None, None);
    entry.get_data();
    entry.drop_data();
    let data = scanned("Late", "Late Artist", None);
    entry.handle_scan_event(&String::from("a.mp3"), &data);
    assert_eq!(*entry.data().read(), Some(data));
}
