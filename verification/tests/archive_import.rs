use drop_reverse_proxy::access::AppError;
use drop_reverse_proxy::import::{
    choose_drop_root, select_drop_archives, untar_dir_for_archive, ArchiveAction, ArchiveCheck, ArchiveEvent,
    BatchAction, BatchEvent, DirEntryInfo, ImportBatch,
};
use drop_reverse_proxy::service::drop::{DropRequest, ImportError};

fn entry(is_dir: bool, is_file: bool, name: &str, path: &str) -> DirEntryInfo {
    DirEntryInfo { is_dir, is_file, file_name: Some(name.to_string()), path: Some(path.to_string()) }
}

#[test]
fn drop_archives_are_drop_prefixed_files() {
    let entries = vec![
        entry(false, true, "drop_1.tar.gz", "/imp/drop_1.tar.gz"),
        entry(false, true, "other.tar.gz", "/imp/other.tar.gz"),
        entry(true, false, "drop_dir", "/imp/drop_dir"),
        DirEntryInfo { is_dir: false, is_file: true, file_name: None, path: Some("/imp/x".to_string()) },
        DirEntryInfo { is_dir: false, is_file: true, file_name: Some("drop_2".to_string()), path: None },
        entry(false, true, "drop_3.tar.gz", "/imp/drop_3.tar.gz"),
    ];
    assert_eq!(
        select_drop_archives(&entries),
        vec!["/imp/drop_1.tar.gz".to_string(), "/imp/drop_3.tar.gz".to_string()]
    );
    assert!(select_drop_archives(&vec![]).is_empty());
}

#[test]
fn drop_root_is_last_visible_directory() {
    let entries = vec![
        entry(true, false, "first", "/u/first"),
        entry(true, false, ".hidden", "/u/.hidden"),
        entry(false, true, "file", "/u/file"),
        entry(true, false, "second", "/u/second"),
        entry(true, false, ".git", "/u/.git"),
    ];
    assert_eq!(choose_drop_root(&"/u".to_string(), &entries), "/u/second");
    assert_eq!(choose_drop_root(&"/u".to_string(), &vec![entry(false, true, "f", "/u/f")]), "/u");
}

#[test]
fn untar_dir_beside_archive() {
    assert_eq!(untar_dir_for_archive("/imp/drop_1.tar.gz", Some(1700000000123)), Ok("/imp_1700000000123".to_string()));
    assert_eq!(untar_dir_for_archive("/imp/drop_1.zip", Some(1)), Err(ImportError::InvalidFileExtension));
    assert_eq!(untar_dir_for_archive("/imp/drop_1.tar.gz", None), Err(ImportError::InvalidUnixEpoch));
    assert_eq!(untar_dir_for_archive("drop.tar.gz", Some(5)), Ok("_5".to_string()));
    assert_eq!(untar_dir_for_archive("/", Some(5)), Err(ImportError::InvalidFileExtension));
}

fn request(tracks: &[&str]) -> DropRequest {
    DropRequest::new(Some(1), None, "A".to_string(), tracks.iter().map(|t| t.to_string()).collect())
}

#[test]
fn archive_with_description_at_top() {
    let (mut check, first) = ArchiveCheck::start("/u".to_string());
    match first {
        ArchiveAction::ReadDescription { path } => assert_eq!(path, "/u/drop.txt"),
        _ => panic!("the description is read first"),
    }
    match check.step(ArchiveEvent::DescriptionRead { request: request(&["t1.mp3", "t2.mp3"]) }) {
        Some(ArchiveAction::CheckTrack { path }) => assert_eq!(path, "/u/t1.mp3"),
        _ => panic!("the first track is checked"),
    }
    match check.step(ArchiveEvent::TrackPresent) {
        Some(ArchiveAction::CheckTrack { path }) => assert_eq!(path, "/u/t2.mp3"),
        _ => panic!("the second track is checked"),
    }
    match check.step(ArchiveEvent::TrackPresent) {
        Some(ArchiveAction::Finish { result: Ok((root, req)) }) => {
            assert_eq!(root, "/u");
            assert_eq!(req.tracks().len(), 2);
        },
        _ => panic!("the archive is accepted"),
    }
    assert!(check.step(ArchiveEvent::TrackPresent).is_none());
}

#[test]
fn archive_with_nested_description() {
    let (mut check, _) = ArchiveCheck::start("/u".to_string());
    match check.step(ArchiveEvent::DescriptionUnreadable) {
        Some(ArchiveAction::ListDirectory { path }) => assert_eq!(path, "/u"),
        _ => panic!("the directory is listed"),
    }
    let entries = vec![entry(true, false, ".meta", "/u/.meta"), entry(true, false, "album", "/u/album")];
    match check.step(ArchiveEvent::Listed { entries }) {
        Some(ArchiveAction::ReadDescription { path }) => assert_eq!(path, "/u/album/drop.txt"),
        _ => panic!("the nested description is read"),
    }
    match check.step(ArchiveEvent::DescriptionRead { request: request(&[]) }) {
        Some(ArchiveAction::Finish { result: Ok((root, _)) }) => assert_eq!(root, "/u/album"),
        _ => panic!("the archive is accepted from the nested directory"),
    }
}

#[test]
fn archive_refusals() {
    let (mut c, _) = ArchiveCheck::start("/u".to_string());
    c.step(ArchiveEvent::DescriptionUnreadable);
    assert!(matches!(
        c.step(ArchiveEvent::ListingFailed),
        Some(ArchiveAction::Finish { result: Err(ImportError::CantReadUntarDirectory) })
    ));

    let (mut c, _) = ArchiveCheck::start("/u".to_string());
    c.step(ArchiveEvent::DescriptionUnreadable);
    c.step(ArchiveEvent::Listed { entries: vec![] });
    assert!(matches!(
        c.step(ArchiveEvent::DescriptionUnreadable),
        Some(ArchiveAction::Finish { result: Err(ImportError::NoDropDescriptionFileFound) })
    ));

    let (mut c, _) = ArchiveCheck::start("/u".to_string());
    c.step(ArchiveEvent::DescriptionRead { request: request(&["a", "b"]) });
    assert!(matches!(
        c.step(ArchiveEvent::TrackMissing),
        Some(ArchiveAction::Finish { result: Err(ImportError::MissingTrackInDropArchive) })
    ));
}

#[test]
fn batch_without_import_path_or_directory() {
    let (_, first) = ImportBatch::start(String::new());
    assert!(matches!(first, BatchAction::Respond { result: Ok(424) }));
    let (mut b, first) = ImportBatch::start("/imp".to_string());
    match first {
        BatchAction::CheckDirectory { path } => assert_eq!(path, "/imp"),
        _ => panic!("the directory is checked"),
    }
    assert!(matches!(b.step(BatchEvent::IsDirectory { yes: false }), Some(BatchAction::Respond { result: Ok(424) })));
}

#[test]
fn batch_imports_accepted_archives_in_order() {
    let (mut b, _) = ImportBatch::start("/imp".to_string());
    assert!(matches!(b.step(BatchEvent::IsDirectory { yes: true }), Some(BatchAction::ListDirectory { .. })));
    let entries = vec![
        entry(false, true, "drop_a.tar.gz", "/imp/drop_a.tar.gz"),
        entry(false, true, "notes.txt", "/imp/notes.txt"),
        entry(false, true, "drop_b.tar.gz", "/imp/drop_b.tar.gz"),
    ];
    match b.step(BatchEvent::Listed { entries }) {
        Some(BatchAction::CheckArchive { file }) => assert_eq!(file, "/imp/drop_a.tar.gz"),
        _ => panic!("the first archive is checked"),
    }
    match b.step(BatchEvent::ArchiveChecked { result: Err(ImportError::MissingTrackInDropArchive) }) {
        Some(BatchAction::CheckArchive { file }) => assert_eq!(file, "/imp/drop_b.tar.gz"),
        _ => panic!("a refused archive is skipped"),
    }
    match b.step(BatchEvent::ArchiveChecked { result: Ok(("/imp_1".to_string(), request(&[]))) }) {
        Some(BatchAction::CreateDrop { import_path, .. }) => assert_eq!(import_path, "/imp_1"),
        _ => panic!("the drop is created"),
    }
    assert!(matches!(b.step(BatchEvent::DropCreated), Some(BatchAction::Respond { result: Ok(200) })));
    assert!(b.step(BatchEvent::DropCreated).is_none());
}

#[test]
fn batch_stops_on_failed_drop() {
    let (mut b, _) = ImportBatch::start("/imp".to_string());
    b.step(BatchEvent::IsDirectory { yes: true });
    b.step(BatchEvent::Listed { entries: vec![entry(false, true, "drop_a", "/imp/drop_a"), entry(false, true, "drop_b", "/imp/drop_b")] });
    b.step(BatchEvent::ArchiveChecked { result: Ok(("/x".to_string(), request(&[]))) });
    assert!(matches!(
        b.step(BatchEvent::DropNotCreated),
        Some(BatchAction::Respond { result: Err(AppError::InternalError) })
    ));

    let (mut b, _) = ImportBatch::start("/imp".to_string());
    b.step(BatchEvent::IsDirectory { yes: true });
    assert!(matches!(b.step(BatchEvent::Listed { entries: vec![] }), Some(BatchAction::Respond { result: Ok(200) })));
}
