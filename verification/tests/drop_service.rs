use drop_reverse_proxy::repository::drop::Drop;
use drop_reverse_proxy::service::drop::{
    DropImport, DropRequest, DropService, ImportAction, ImportError, ImportEvent, ARTWORK_DIR_PREFIX,
    TRACK_FILE_PREFIX,
};
use std::cell::RefCell;
use std::collections::{BTreeMap, BTreeSet, HashMap};

/// Artists by id and by name, as the artist repository of the service.
struct ArtistStore {
    by_id: HashMap<i32, (i32, String)>,
    by_name: HashMap<String, (i32, String)>,
}

/// Saved artworks; a save answers with the artwork's own id, as the mock
/// repositories of the service do.
struct ArtworkStore {
    saved: RefCell<Vec<(i32, i32, String)>>,
}

/// Saved drops, numbered from 1 like a serial column.
struct DropStore {
    rows: RefCell<BTreeMap<i32, Drop>>,
}

/// Directories and files the import works on.
struct Files {
    dirs: BTreeSet<String>,
    files: BTreeMap<String, String>,
}

fn parent(path: &str) -> String {
    match path.rfind('/') {
        Some(i) => path[..i].to_string(),
        None => String::new(),
    }
}

fn service() -> DropService<DropStore, ArtistStore, ArtworkStore> {
    DropService::new(
        DropStore { rows: RefCell::new(BTreeMap::new()) },
        ArtistStore { by_id: HashMap::new(), by_name: HashMap::new() },
        ArtworkStore { saved: RefCell::new(Vec::new()) },
    )
}

/// Performs each action the import asks for, on the stores and the files,
/// until it finishes.
fn run(
    service: &DropService<DropStore, ArtistStore, ArtworkStore>,
    fs: &mut Files,
    import_path: &str,
    request: DropRequest,
    web_server_path: &str,
) -> Result<(), ImportError> {
    let (mut import, mut action): (DropImport, ImportAction) =
        service.start_import(&import_path.to_string(), request, &web_server_path.to_string());
    loop {
        let event = match action {
            ImportAction::FindArtistById { artist_id } => match service.artist_repository().by_id.get(&artist_id) {
                Some((id, name)) => ImportEvent::ArtistFound { artist_id: *id, artist_name: name.clone() },
                None => ImportEvent::ArtistNotFound,
            },
            ImportAction::FindArtistByName { artist_name } => {
                match service.artist_repository().by_name.get(&artist_name) {
                    Some((id, name)) => ImportEvent::ArtistFound { artist_id: *id, artist_name: name.clone() },
                    None => ImportEvent::ArtistNotFound,
                }
            },
            ImportAction::SaveArtwork { artist_id, artwork_name } => {
                service.artwork_repository().saved.borrow_mut().push((0, artist_id, artwork_name));
                ImportEvent::ArtworkSaved { artwork_id: 0 }
            },
            ImportAction::SaveDrop { artwork_id, name, dir } => {
                let mut rows = service.drop_repository().rows.borrow_mut();
                let id = rows.len() as i32 + 1;
                rows.insert(id, Drop::new(id, artwork_id, name, dir));
                ImportEvent::DropSaved { drop_id: id }
            },
            ImportAction::CreateDirectory { path } => {
                if fs.dirs.contains(&parent(&path)) && !fs.dirs.contains(&path) && !fs.files.contains_key(&path) {
                    fs.dirs.insert(path);
                    ImportEvent::DirectoryCreated
                } else {
                    ImportEvent::DirectoryNotCreated
                }
            },
            ImportAction::CopyTrack { from, to } => match fs.files.get(&from).cloned() {
                Some(content) if fs.dirs.contains(&parent(&to)) => {
                    fs.files.insert(to, content);
                    ImportEvent::TrackCopied
                },
                _ => ImportEvent::TrackNotCopied,
            },
            ImportAction::Finish { result } => {
                assert!(import.is_finished());
                return result;
            },
        };
        action = import.step(event).expect("the import waits for this outcome");
    }
}

fn files_with(dirs: &[&str], files: &[(&str, &str)]) -> Files {
    Files {
        dirs: dirs.iter().map(|d| d.to_string()).collect(),
        files: files.iter().map(|(p, c)| (p.to_string(), c.to_string())).collect(),
    }
}

#[test]
fn test_create_drop_success_with_artist_id() {
    let artist_id = 10;
    let mut store = ArtistStore { by_id: HashMap::new(), by_name: HashMap::new() };
    store.by_id.insert(artist_id, (artist_id, "Artist Name".to_string()));
    let service = DropService::new(
        DropStore { rows: RefCell::new(BTreeMap::new()) },
        store,
        ArtworkStore { saved: RefCell::new(Vec::new()) },
    );
    let mut fs = files_with(&["/import", "/web"], &[("/import/track1.mp3", "content1")]);
    let request = DropRequest::new(Some(artist_id), None, "Artwork Name".to_string(), vec!["track1.mp3".to_string()]);

    let result = run(&service, &mut fs, "/import", request, "/web");
    assert!(result.is_ok());

    let artwork_dir = format!("/web/{}{}", ARTWORK_DIR_PREFIX, 0);
    assert!(fs.dirs.contains(&artwork_dir));
    assert!(fs.files.contains_key(&format!("{}/{}{}", artwork_dir, TRACK_FILE_PREFIX, 1)));

    let rows = service.drop_repository().rows.borrow();
    let drop = rows.values().next().expect("a drop was saved");
    assert!(drop.name().len() > 0);
}

#[test]
fn test_create_drop_success_with_artist_name() {
    let mut store = ArtistStore { by_id: HashMap::new(), by_name: HashMap::new() };
    store.by_name.insert("Artist Name".to_string(), (10, "Artist Name".to_string()));
    let service = DropService::new(
        DropStore { rows: RefCell::new(BTreeMap::new()) },
        store,
        ArtworkStore { saved: RefCell::new(Vec::new()) },
    );
    let mut fs = files_with(&["/import", "/web"], &[("/import/track1.mp3", "content1")]);
    let request =
        DropRequest::new(None, Some("Artist Name".to_string()), "Artwork Name".to_string(), vec!["track1.mp3".to_string()]);

    let result = run(&service, &mut fs, "/import", request, "/web");
    assert!(result.is_ok());
    assert!(fs.dirs.contains(&format!("/web/{}{}", ARTWORK_DIR_PREFIX, 0)));
}

#[test]
fn test_create_drop_error_both_artist_id_and_name() {
    let service = service();
    let mut fs = files_with(&[], &[]);
    let request = DropRequest::new(Some(1), Some("Name".to_string()), "Playlist".to_string(), vec![]);
    let result = run(&service, &mut fs, "import", request, "web");
    assert!(matches!(result, Err(ImportError::ArtistIdAndArtistNameAreBothPresent)));
}

#[test]
fn test_create_drop_error_neither_artist_id_nor_name() {
    let service = service();
    let mut fs = files_with(&[], &[]);
    let request = DropRequest::new(None, None, "Playlist".to_string(), vec![]);
    let result = run(&service, &mut fs, "import", request, "web");
    assert!(matches!(result, Err(ImportError::NeitherArtistIdNorArtistNamePresent)));
}

#[test]
fn test_create_drop_error_artist_id_not_found() {
    let service = service();
    let mut fs = files_with(&[], &[]);
    let request = DropRequest::new(Some(999), None, "Artwork".to_string(), vec![]);
    let result = run(&service, &mut fs, "import", request, "web");
    assert!(matches!(result, Err(ImportError::InvalidArtistId)));
}

#[test]
fn test_create_drop_error_artist_name_not_found() {
    let service = service();
    let mut fs = files_with(&[], &[]);
    let request = DropRequest::new(None, Some("Unknown".to_string()), "Playlist".to_string(), vec![]);
    let result = run(&service, &mut fs, "import", request, "web");
    assert!(matches!(result, Err(ImportError::CantCreateArtistFromArtistName)));
}

#[test]
fn test_create_drop_error_missing_track_file() {
    let mut store = ArtistStore { by_id: HashMap::new(), by_name: HashMap::new() };
    store.by_id.insert(1, (1, "Artist".to_string()));
    let service = DropService::new(
        DropStore { rows: RefCell::new(BTreeMap::new()) },
        store,
        ArtworkStore { saved: RefCell::new(Vec::new()) },
    );
    let mut fs = files_with(&["/import", "/web"], &[]);
    let request = DropRequest::new(Some(1), None, "Playlist".to_string(), vec!["missing.mp3".to_string()]);
    let result = run(&service, &mut fs, "/import", request, "/web");
    assert!(matches!(result, Err(ImportError::CantCopyTrackFileToArtworkDirectory)));
}

#[test]
fn test_create_drop_with_new_artist_name() {
    let mut store = ArtistStore { by_id: HashMap::new(), by_name: HashMap::new() };
    store.by_name.insert("New Artist".to_string(), (1, "New Artist".to_string()));
    let service = DropService::new(
        DropStore { rows: RefCell::new(BTreeMap::new()) },
        store,
        ArtworkStore { saved: RefCell::new(Vec::new()) },
    );
    let mut fs = files_with(
        &["/import", "/web"],
        &[("/import/track1.mp3", "fake mp3 content 1"), ("/import/track2.mp3", "fake mp3 content 2")],
    );
    let request = DropRequest::new(
        None,
        Some("New Artist".to_string()),
        "My Artwork".to_string(),
        vec!["track1.mp3".to_string(), "track2.mp3".to_string()],
    );
    run(&service, &mut fs, "/import", request, "/web").expect("Failed to create drop");

    let artwork_dir = format!("/web/{}{}", ARTWORK_DIR_PREFIX, 0);
    assert!(fs.dirs.contains(&artwork_dir));
    assert!(fs.files.contains_key(&format!("{}/{}{}", artwork_dir, TRACK_FILE_PREFIX, 1)));
    assert!(fs.files.contains_key(&format!("{}/{}{}", artwork_dir, TRACK_FILE_PREFIX, 2)));
    assert_eq!(fs.files[&format!("{}/{}{}", artwork_dir, TRACK_FILE_PREFIX, 1)], "fake mp3 content 1");
    assert_eq!(fs.files[&format!("{}/{}{}", artwork_dir, TRACK_FILE_PREFIX, 2)], "fake mp3 content 2");
}

#[test]
fn test_create_drop_with_existing_artist_id() {
    let mut store = ArtistStore { by_id: HashMap::new(), by_name: HashMap::new() };
    store.by_id.insert(1, (1, "Existing Artist".to_string()));
    let service = DropService::new(
        DropStore { rows: RefCell::new(BTreeMap::new()) },
        store,
        ArtworkStore { saved: RefCell::new(Vec::new()) },
    );
    let mut fs = files_with(&["/import", "/web"], &[("/import/t1.mp3", "c1")]);
    let request = DropRequest::new(Some(1), None, "P1".to_string(), vec!["t1.mp3".to_string()]);
    run(&service, &mut fs, "/import", request, "/web").expect("Failed to create drop");
    assert!(fs.dirs.contains(&format!("/web/{}{}", ARTWORK_DIR_PREFIX, 0)));
}

#[test]
fn test_create_drop_error_both_id_and_name() {
    let service = service();
    let mut fs = files_with(&[], &[]);
    let request = DropRequest::new(Some(1), Some("Name".to_string()), "P".to_string(), vec![]);
    let result = run(&service, &mut fs, ".", request, ".");
    assert!(result.is_err());
}

#[test]
fn test_find_drop_after_create_drop() {
    let mut store = ArtistStore { by_id: HashMap::new(), by_name: HashMap::new() };
    store.by_id.insert(1, (1, "Some Artist".to_string()));
    let service = DropService::new(
        DropStore { rows: RefCell::new(BTreeMap::new()) },
        store,
        ArtworkStore { saved: RefCell::new(Vec::new()) },
    );
    let mut fs = files_with(&["/import", "/web"], &[("/import/t1.mp3", "c1")]);
    let request = DropRequest::new(Some(1), None, "Artwork".to_string(), vec!["t1.mp3".to_string()]);
    run(&service, &mut fs, "/import", request, "/web").expect("Failed to create drop");

    let rows = service.drop_repository().rows.borrow();
    let found = rows.get(&1).expect("Created drop should be found");
    assert_eq!(found.id(), 1);
    assert_eq!(found.name(), "Some Artist");
    assert_eq!(found.artwork_id(), 0);
    assert_eq!(found.dir(), format!("{}/{}{}", "/web", ARTWORK_DIR_PREFIX, 0));
}

#[test]
fn import_saves_artwork_under_request_name_for_found_artist() {
    let mut store = ArtistStore { by_id: HashMap::new(), by_name: HashMap::new() };
    store.by_id.insert(7, (7, "Seven".to_string()));
    let service = DropService::new(
        DropStore { rows: RefCell::new(BTreeMap::new()) },
        store,
        ArtworkStore { saved: RefCell::new(Vec::new()) },
    );
    let mut fs = files_with(&["/i", "/w"], &[]);
    let request = DropRequest::new(Some(7), None, "Cover".to_string(), vec![]);
    run(&service, &mut fs, "/i", request, "/w").expect("an import without tracks succeeds");
    assert_eq!(service.artwork_repository().saved.borrow().clone(), vec![(0, 7, "Cover".to_string())]);
    assert!(fs.dirs.contains("/w/artwork_0"));
}

#[test]
fn import_fails_when_artwork_directory_exists() {
    let mut store = ArtistStore { by_id: HashMap::new(), by_name: HashMap::new() };
    store.by_id.insert(1, (1, "A".to_string()));
    let service = DropService::new(
        DropStore { rows: RefCell::new(BTreeMap::new()) },
        store,
        ArtworkStore { saved: RefCell::new(Vec::new()) },
    );
    let mut fs = files_with(&["/i", "/w", "/w/artwork_0"], &[]);
    let request = DropRequest::new(Some(1), None, "X".to_string(), vec![]);
    let result = run(&service, &mut fs, "/i", request, "/w");
    assert!(matches!(result, Err(ImportError::CantCreateArtworkDirectoryInWebServer)));
}

#[test]
fn import_ignores_unexpected_events_and_stops_after_finishing() {
    let request = DropRequest::new(Some(3), None, "X".to_string(), vec!["a".to_string(), "b".to_string()]);
    let (mut import, first) = DropImport::start("/i".to_string(), request, "/w".to_string());
    assert!(matches!(first, ImportAction::FindArtistById { artist_id: 3 }));
    assert!(import.step(ImportEvent::TrackCopied).is_none());
    match import.step(ImportEvent::ArtistFound { artist_id: 3, artist_name: "Three".to_string() }) {
        Some(ImportAction::SaveArtwork { artist_id, artwork_name }) => {
            assert_eq!(artist_id, 3);
            assert_eq!(artwork_name, "X");
        },
        _ => panic!("the artwork is saved next"),
    }
    match import.step(ImportEvent::ArtworkSaved { artwork_id: -5 }) {
        Some(ImportAction::SaveDrop { artwork_id, name, dir }) => {
            assert_eq!(artwork_id, -5);
            assert_eq!(name, "Three");
            assert_eq!(dir, "/w/artwork_-5");
        },
        _ => panic!("the drop is saved next"),
    }
    assert!(matches!(import.step(ImportEvent::DropSaved { drop_id: 1 }), Some(ImportAction::CreateDirectory { .. })));
    match import.step(ImportEvent::DirectoryCreated) {
        Some(ImportAction::CopyTrack { from, to }) => {
            assert_eq!(from, "/i/a");
            assert_eq!(to, "/w/artwork_-5/track_1");
        },
        _ => panic!("the first track is copied next"),
    }
    match import.step(ImportEvent::TrackCopied) {
        Some(ImportAction::CopyTrack { from, to }) => {
            assert_eq!(from, "/i/b");
            assert_eq!(to, "/w/artwork_-5/track_2");
        },
        _ => panic!("the second track is copied next"),
    }
    assert!(matches!(import.step(ImportEvent::TrackNotCopied), Some(ImportAction::Finish {
        result: Err(ImportError::CantCopyTrackFileToArtworkDirectory)
    })));
    assert!(import.is_finished());
    assert!(import.step(ImportEvent::TrackCopied).is_none());
}

#[test]
fn drop_request_getters() {
    let r = DropRequest::new(Some(4), Some("n".to_string()), "w".to_string(), vec!["t".to_string()]);
    assert_eq!(*r.artist_id(), Some(4));
    assert_eq!(*r.artist_name(), Some("n".to_string()));
    assert_eq!(r.artwork_name(), "w");
    assert_eq!(r.tracks(), &vec!["t".to_string()]);
}
