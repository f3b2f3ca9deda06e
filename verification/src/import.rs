//! Finding and checking drop archives in the import directory: which files
//! are archives, where an archive is unpacked, and how an unpacked archive is
//! checked (its description file, possibly one directory down, and every
//! track the description names).

use vstd::prelude::*;
use vstd::string::*;
use crate::TAG_ARCHIVE_PREFIX;
use crate::access::AppError;
use crate::service::drop::{DropRequest, DropRequestView, ImportError, track_source_path};
use crate::text::{decimal, ends_with, has_prefix, has_suffix, push_decimal, starts_with, strings_view};

verus! {

/// What the import reads of one entry of a directory listing.
pub struct DirEntryInfo {
    /// The entry is a directory (by its own file type).
    pub is_dir: bool,
    /// The entry's path leads to a regular file.
    pub is_file: bool,
    /// The entry's file name, when it is valid UTF-8.
    pub file_name: Option<String>,
    /// The entry's full path, when it is valid UTF-8.
    pub path: Option<String>,
}

/// A listed entry is a drop archive: a file whose name starts with `drop_`
/// and whose path can be read as text.
pub open spec fn is_drop_archive(e: DirEntryInfo) -> bool {
    &&& e.is_file
    &&& e.file_name is Some
    &&& has_prefix(e.file_name->0@, TAG_ARCHIVE_PREFIX@)
    &&& e.path is Some
}

/// The paths of the drop archives of a listing, in listing order.
pub open spec fn archive_paths(entries: Seq<DirEntryInfo>) -> Seq<Seq<char>>
    decreases entries.len(),
{
    if entries.len() == 0 {
        Seq::empty()
    } else {
        let rest = archive_paths(entries.drop_last());
        if is_drop_archive(entries.last()) {
            rest.push(entries.last().path->0@)
        } else {
            rest
        }
    }
}

/// The drop archives among the entries of the import directory.
pub fn select_drop_archives(entries: &Vec<DirEntryInfo>) -> (r: Vec<String>)
    ensures
        strings_view(r@) == archive_paths(entries@),
{
    let mut r: Vec<String> = Vec::new();
    let mut i: usize = 0;
    while i < entries.len()
        invariant
            i <= entries@.len(),
            strings_view(r@) == archive_paths(entries@.subrange(0, i as int)),
        decreases entries@.len() - i,
    {
        let e = &entries[i];
        let ghost before = r@;
        let mut take = false;
        if e.is_file {
            match &e.file_name {
                Some(name) => {
                    if starts_with(name.as_str(), TAG_ARCHIVE_PREFIX) {
                        match &e.path {
                            Some(p) => {
                                r.push(p.clone());
                                take = true;
                            },
                            None => {},
                        }
                    }
                },
                None => {},
            }
        }
        proof {
            let pre = entries@.subrange(0, i as int);
            let next = entries@.subrange(0, i + 1);
            assert(next.drop_last() =~= pre);
            assert(next.last() == entries@[i as int]);
            assert(take == is_drop_archive(entries@[i as int]));
            if take {
                assert(strings_view(r@) =~= strings_view(before).push(entries@[i as int].path->0@));
            } else {
                assert(strings_view(r@) =~= strings_view(before));
            }
        }
        i = i + 1;
    }
    assert(entries@.subrange(0, entries@.len() as int) =~= entries@);
    r
}

/// A listed entry can hold the unpacked drop: a directory whose name is
/// readable and not hidden, and whose path is readable.
pub open spec fn is_drop_root_candidate(e: DirEntryInfo) -> bool {
    &&& e.is_dir
    &&& e.file_name is Some
    &&& !has_prefix(e.file_name->0@, "."@)
    &&& e.path is Some
}

/// Where to look for the description next: the path of the last candidate
/// directory of the listing, or `current` when there is none.
pub open spec fn drop_root(current: Seq<char>, entries: Seq<DirEntryInfo>) -> Seq<char>
    decreases entries.len(),
{
    if entries.len() == 0 {
        current
    } else if is_drop_root_candidate(entries.last()) {
        entries.last().path->0@
    } else {
        drop_root(current, entries.drop_last())
    }
}

/// The directory of an unpacked archive that holds its description.
pub fn choose_drop_root(current: &String, entries: &Vec<DirEntryInfo>) -> (r: String)
    ensures
        r@ == drop_root(current@, entries@),
{
    let mut r = current.clone();
    let mut i: usize = 0;
    while i < entries.len()
        invariant
            i <= entries@.len(),
            r@ == drop_root(current@, entries@.subrange(0, i as int)),
        decreases entries@.len() - i,
    {
        let e = &entries[i];
        let mut take = false;
        if e.is_dir {
            match &e.file_name {
                Some(name) => {
                    if !starts_with(name.as_str(), ".") {
                        match &e.path {
                            Some(p) => {
                                r = p.clone();
                                take = true;
                            },
                            None => {},
                        }
                    }
                },
                None => {},
            }
        }
        proof {
            let pre = entries@.subrange(0, i as int);
            let next = entries@.subrange(0, i + 1);
            assert(next.drop_last() =~= pre);
            assert(next.last() == entries@[i as int]);
            assert(take == is_drop_root_candidate(entries@[i as int]));
        }
        i = i + 1;
    }
    assert(entries@.subrange(0, entries@.len() as int) =~= entries@);
    r
}

/// The parent of a path, by `std::path::Path::parent`.
pub uninterp spec fn path_parent(path: Seq<char>) -> Option<Seq<char>>;

/// `Path::new(path).parent()`, as text.  Claimed: the result is
/// `path_parent(path)`.  (A parent of a path that is valid text is valid
/// text, so the conversion back to `str` never fails.)
#[verifier::external_body]
fn parent_of(path: &str) -> (r: Option<String>)
    ensures
        r matches Some(p) ==> path_parent(path@) == Some(p@),
        r is None ==> path_parent(path@) is None,
{
    std::path::Path::new(path).parent().and_then(|p| p.to_str()).map(|p| p.to_string())
}

/// The file name every drop archive ends with.
pub const DROP_ARCHIVE_EXTENSION: &'static str = ".tar.gz";

/// Where a drop archive is unpacked: beside it, in
/// `<archive's directory>_<milliseconds since the epoch>`.  The archive must
/// end with `.tar.gz` and have a parent directory, and the clock must read
/// after the epoch (`now_millis` is `None` otherwise).
pub open spec fn untar_dir(file: Seq<char>, now_millis: Option<u128>) -> Result<Seq<char>, ImportError> {
    if !has_suffix(file, DROP_ARCHIVE_EXTENSION@) {
        Err(ImportError::InvalidFileExtension)
    } else if path_parent(file) is None {
        Err(ImportError::NoFileParentDirectory)
    } else if now_millis is None {
        Err(ImportError::InvalidUnixEpoch)
    } else {
        Ok(path_parent(file)->0 + "_"@ + decimal(now_millis->0 as nat))
    }
}

pub fn untar_dir_for_archive(file: &str, now_millis: Option<u128>) -> (r: Result<String, ImportError>)
    ensures
        match untar_dir(file@, now_millis) {
            Ok(d) => r matches Ok(s) && s@ == d,
            Err(e) => r == Err::<String, ImportError>(e),
        },
{
    if !ends_with(file, DROP_ARCHIVE_EXTENSION) {
        return Err(ImportError::InvalidFileExtension);
    }
    let parent = match parent_of(file) {
        Some(p) => p,
        None => return Err(ImportError::NoFileParentDirectory),
    };
    let millis = match now_millis {
        Some(m) => m,
        None => return Err(ImportError::InvalidUnixEpoch),
    };
    let mut d = parent;
    d.append("_");
    push_decimal(&mut d, millis);
    Ok(d)
}

/// Where the description of a drop lies in a directory: `<dir>/drop.txt`.
pub open spec fn description_path(dir: Seq<char>) -> Seq<char> {
    dir + "/drop.txt"@
}

/// Outcome of what an archive check asked for last.
pub enum ArchiveEvent {
    /// The description file was read and parsed into this request.
    DescriptionRead { request: DropRequest },
    DescriptionUnreadable,
    /// The directory was listed.
    Listed { entries: Vec<DirEntryInfo> },
    ListingFailed,
    TrackPresent,
    TrackMissing,
}

/// What an archive check asks for next.
pub enum ArchiveAction {
    ReadDescription { path: String },
    ListDirectory { path: String },
    /// Open the track file at `path`.
    CheckTrack { path: String },
    /// The check is over: the directory holding the drop and its request, or
    /// why the archive is refused.
    Finish { result: Result<(String, DropRequest), ImportError> },
}

pub enum ArchiveActionView {
    ReadDescription { path: Seq<char> },
    ListDirectory { path: Seq<char> },
    CheckTrack { path: Seq<char> },
    Finish { result: Result<(Seq<char>, DropRequestView), ImportError> },
}

impl View for ArchiveAction {
    type V = ArchiveActionView;

    open spec fn view(&self) -> ArchiveActionView {
        match self {
            ArchiveAction::ReadDescription { path } => ArchiveActionView::ReadDescription { path: path@ },
            ArchiveAction::ListDirectory { path } => ArchiveActionView::ListDirectory { path: path@ },
            ArchiveAction::CheckTrack { path } => ArchiveActionView::CheckTrack { path: path@ },
            ArchiveAction::Finish { result } => ArchiveActionView::Finish {
                result: match result {
                    Ok((d, r)) => Ok((d@, r@)),
                    Err(e) => Err(*e),
                },
            },
        }
    }
}

pub enum ArchivePhase {
    /// The description in the unpack directory itself was asked for.
    ReadingTopDescription,
    /// The unpack directory's listing was asked for.
    Listing,
    /// The description one directory down was asked for.
    ReadingNestedDescription,
    /// Track `index` of `request` was asked for.
    CheckingTracks { request: DropRequest, index: usize },
    Done,
}

pub enum ArchivePhaseView {
    ReadingTopDescription,
    Listing,
    ReadingNestedDescription,
    CheckingTracks { request: DropRequestView, index: nat },
    Done,
}

impl View for ArchivePhase {
    type V = ArchivePhaseView;

    open spec fn view(&self) -> ArchivePhaseView {
        match self {
            ArchivePhase::ReadingTopDescription => ArchivePhaseView::ReadingTopDescription,
            ArchivePhase::Listing => ArchivePhaseView::Listing,
            ArchivePhase::ReadingNestedDescription => ArchivePhaseView::ReadingNestedDescription,
            ArchivePhase::CheckingTracks { request, index } => ArchivePhaseView::CheckingTracks {
                request: request@,
                index: *index as nat,
            },
            ArchivePhase::Done => ArchivePhaseView::Done,
        }
    }
}

/// The check of one unpacked archive: the directory where the drop is looked
/// for, and the phase reached.
pub struct ArchiveCheck {
    root: String,
    phase: ArchivePhase,
}

pub struct ArchiveCheckView {
    pub root: Seq<char>,
    pub phase: ArchivePhaseView,
}

impl View for ArchiveCheck {
    type V = ArchiveCheckView;

    closed spec fn view(&self) -> ArchiveCheckView {
        ArchiveCheckView { root: self.root@, phase: self.phase@ }
    }
}

pub open spec fn archive_finish(root: Seq<char>, result: Result<(Seq<char>, DropRequestView), ImportError>) -> (ArchiveCheckView, ArchiveActionView) {
    (ArchiveCheckView { root, phase: ArchivePhaseView::Done }, ArchiveActionView::Finish { result })
}

/// Asks for track `index` of `request` under `root`, or ends the check
/// successfully once every track was found.
pub open spec fn check_track_or_finish(root: Seq<char>, request: DropRequestView, index: nat) -> (ArchiveCheckView, ArchiveActionView) {
    if index < request.tracks.len() {
        (
            ArchiveCheckView { root, phase: ArchivePhaseView::CheckingTracks { request, index } },
            ArchiveActionView::CheckTrack { path: track_source_path(root, request.tracks[index as int]) },
        )
    } else {
        archive_finish(root, Ok((root, request)))
    }
}

/// How the check of the archive unpacked in `untar_path` begins.
pub open spec fn archive_start(untar_path: Seq<char>) -> (ArchiveCheckView, ArchiveActionView) {
    (
        ArchiveCheckView { root: untar_path, phase: ArchivePhaseView::ReadingTopDescription },
        ArchiveActionView::ReadDescription { path: description_path(untar_path) },
    )
}

/// How an archive check moves on an event; `None` when the event is not the
/// outcome it waits for.  A description missing from the unpack directory is
/// looked for in the last non-hidden directory of it.
pub open spec fn archive_next(s: ArchiveCheckView, e: ArchiveEvent) -> Option<(ArchiveCheckView, ArchiveActionView)> {
    match s.phase {
        ArchivePhaseView::ReadingTopDescription => match e {
            ArchiveEvent::DescriptionRead { request } => Some(check_track_or_finish(s.root, request@, 0)),
            ArchiveEvent::DescriptionUnreadable => Some((
                ArchiveCheckView { root: s.root, phase: ArchivePhaseView::Listing },
                ArchiveActionView::ListDirectory { path: s.root },
            )),
            _ => None,
        },
        ArchivePhaseView::Listing => match e {
            ArchiveEvent::Listed { entries } => {
                let root = drop_root(s.root, entries@);
                Some((
                    ArchiveCheckView { root, phase: ArchivePhaseView::ReadingNestedDescription },
                    ArchiveActionView::ReadDescription { path: description_path(root) },
                ))
            },
            ArchiveEvent::ListingFailed => Some(archive_finish(s.root, Err(ImportError::CantReadUntarDirectory))),
            _ => None,
        },
        ArchivePhaseView::ReadingNestedDescription => match e {
            ArchiveEvent::DescriptionRead { request } => Some(check_track_or_finish(s.root, request@, 0)),
            ArchiveEvent::DescriptionUnreadable => Some(archive_finish(s.root, Err(ImportError::NoDropDescriptionFileFound))),
            _ => None,
        },
        ArchivePhaseView::CheckingTracks { request, index } => match e {
            ArchiveEvent::TrackPresent => Some(check_track_or_finish(s.root, request, index + 1)),
            ArchiveEvent::TrackMissing => Some(archive_finish(s.root, Err(ImportError::MissingTrackInDropArchive))),
            _ => None,
        },
        ArchivePhaseView::Done => None,
    }
}

fn make_description_path(dir: &String) -> (r: String)
    ensures
        r@ == description_path(dir@),
{
    let mut r = dir.clone();
    r.append("/drop.txt");
    r
}

impl ArchiveCheck {
    #[verifier::type_invariant]
    closed spec fn well_formed(self) -> bool {
        self.phase matches ArchivePhase::CheckingTracks { request, index } ==> index < request@.tracks.len()
    }

    /// Begins the check of the archive unpacked in `untar_path`.
    pub fn start(untar_path: String) -> (r: (ArchiveCheck, ArchiveAction))
        ensures
            (r.0@, r.1@) == archive_start(untar_path@),
    {
        let path = make_description_path(&untar_path);
        (ArchiveCheck { root: untar_path, phase: ArchivePhase::ReadingTopDescription }, ArchiveAction::ReadDescription { path })
    }

    fn check_track_or_finish_exec(&mut self, request: DropRequest, index: usize) -> (action: ArchiveAction)
        requires
            index <= request@.tracks.len(),
        ensures
            (final(self)@, action@) == check_track_or_finish(old(self)@.root, request@, index as nat),
    {
        let n = request.tracks().len();
        if index < n {
            let track = request.tracks()[index].clone();
            let mut path = self.root.clone();
            path.append("/");
            path.append(track.as_str());
            self.phase = ArchivePhase::CheckingTracks { request, index };
            ArchiveAction::CheckTrack { path }
        } else {
            self.phase = ArchivePhase::Done;
            ArchiveAction::Finish { result: Ok((self.root.clone(), request)) }
        }
    }

    /// Moves the check on the outcome of what it asked for last.
    pub fn step(&mut self, event: ArchiveEvent) -> (action: Option<ArchiveAction>)
        ensures
            match archive_next(old(self)@, event) {
                Some(t) => final(self)@ == t.0 && action is Some && action->0@ == t.1,
                None => final(self)@ == old(self)@ && action is None,
            },
    {
        proof { use_type_invariant(&*self); }
        let ghost old_self = *self;
        let mut phase = ArchivePhase::Done;
        std::mem::swap(&mut phase, &mut self.phase);
        match phase {
            ArchivePhase::ReadingTopDescription => match event {
                ArchiveEvent::DescriptionRead { request } => Some(self.check_track_or_finish_exec(request, 0)),
                ArchiveEvent::DescriptionUnreadable => {
                    self.phase = ArchivePhase::Listing;
                    Some(ArchiveAction::ListDirectory { path: self.root.clone() })
                },
                _ => {
                    self.phase = ArchivePhase::ReadingTopDescription;
                    None
                },
            },
            ArchivePhase::Listing => match event {
                ArchiveEvent::Listed { entries } => {
                    let root = choose_drop_root(&self.root, &entries);
                    let path = make_description_path(&root);
                    self.root = root;
                    self.phase = ArchivePhase::ReadingNestedDescription;
                    Some(ArchiveAction::ReadDescription { path })
                },
                ArchiveEvent::ListingFailed => {
                    Some(ArchiveAction::Finish { result: Err(ImportError::CantReadUntarDirectory) })
                },
                _ => {
                    self.phase = ArchivePhase::Listing;
                    None
                },
            },
            ArchivePhase::ReadingNestedDescription => match event {
                ArchiveEvent::DescriptionRead { request } => Some(self.check_track_or_finish_exec(request, 0)),
                ArchiveEvent::DescriptionUnreadable => {
                    Some(ArchiveAction::Finish { result: Err(ImportError::NoDropDescriptionFileFound) })
                },
                _ => {
                    self.phase = ArchivePhase::ReadingNestedDescription;
                    None
                },
            },
            ArchivePhase::CheckingTracks { request, index } => match event {
                ArchiveEvent::TrackPresent => {
                    let n = request.tracks().len();
                    assert(old_self.well_formed() && index < n);
                    Some(self.check_track_or_finish_exec(request, index + 1))
                },
                ArchiveEvent::TrackMissing => {
                    Some(ArchiveAction::Finish { result: Err(ImportError::MissingTrackInDropArchive) })
                },
                _ => {
                    self.phase = ArchivePhase::CheckingTracks { request, index };
                    None
                },
            },
            ArchivePhase::Done => None,
        }
    }
}

/// The state and the actions of an archive check after a sequence of events
/// (events it does not wait for are ignored).
pub open spec fn archive_run(s: ArchiveCheckView, events: Seq<ArchiveEvent>) -> (ArchiveCheckView, Seq<ArchiveActionView>)
    decreases events.len(),
{
    if events.len() == 0 {
        (s, Seq::empty())
    } else {
        match archive_next(s, events[0]) {
            Some(t) => {
                let r = archive_run(t.0, events.drop_first());
                (r.0, seq![t.1] + r.1)
            },
            None => archive_run(s, events.drop_first()),
        }
    }
}

/// `n` tracks found in a row.
pub open spec fn tracks_present(n: nat) -> Seq<ArchiveEvent> {
    Seq::new(n, |i: int| ArchiveEvent::TrackPresent)
}

/// The checks of the tracks of `request` under `root`, from track `from` on.
pub open spec fn track_checks(root: Seq<char>, request: DropRequestView, from: nat) -> Seq<ArchiveActionView> {
    Seq::new(
        (request.tracks.len() - from) as nat,
        |i: int| ArchiveActionView::CheckTrack { path: track_source_path(root, request.tracks[from + i]) },
    )
}

proof fn lemma_track_checks(root: Seq<char>, request: DropRequestView, k: nat)
    requires
        k <= request.tracks.len(),
    ensures
        ({
            let t = check_track_or_finish(root, request, k);
            let r = archive_run(t.0, tracks_present((request.tracks.len() - k) as nat));
            &&& seq![t.1] + r.1 == track_checks(root, request, k) + seq![
                ArchiveActionView::Finish { result: Ok((root, request)) },
            ]
            &&& r.0.phase is Done
        }),
    decreases request.tracks.len() - k,
{
    let len = request.tracks.len();
    let t = check_track_or_finish(root, request, k);
    let evs = tracks_present((len - k) as nat);
    let fin = ArchiveActionView::Finish { result: Ok((root, request)) };
    if k == len {
        assert(evs =~= Seq::<ArchiveEvent>::empty());
        assert(track_checks(root, request, k) =~= Seq::<ArchiveActionView>::empty());
        assert(seq![t.1] + archive_run(t.0, evs).1 =~= track_checks(root, request, k) + seq![fin]);
    } else {
        lemma_track_checks(root, request, k + 1);
        assert(evs[0] == ArchiveEvent::TrackPresent);
        assert(archive_next(t.0, evs[0]) == Some(check_track_or_finish(root, request, k + 1)));
        assert(evs.drop_first() =~= tracks_present((len - (k + 1)) as nat));
        let t2 = check_track_or_finish(root, request, k + 1);
        let r2 = archive_run(t2.0, tracks_present((len - (k + 1)) as nat));
        assert(archive_run(t.0, evs).1 == seq![t2.1] + r2.1);
        assert(track_checks(root, request, k) =~= seq![t.1] + track_checks(root, request, k + 1));
        assert(seq![t.1] + archive_run(t.0, evs).1 =~= track_checks(root, request, k) + seq![fin]);
    }
}

/// An archive whose description lies in the unpack directory and all of whose
/// tracks are present is accepted, with that directory and that request,
/// after each track of the request was looked for there, in order.
pub proof fn lemma_archive_accepted_at_top(untar_path: Seq<char>, request: DropRequest)
    ensures
        ({
            let (s0, a0) = archive_start(untar_path);
            let events = seq![ArchiveEvent::DescriptionRead { request }] + tracks_present(request@.tracks.len());
            let r = archive_run(s0, events);
            &&& a0 == ArchiveActionView::ReadDescription { path: description_path(untar_path) }
            &&& r.1 == track_checks(untar_path, request@, 0) + seq![
                ArchiveActionView::Finish { result: Ok((untar_path, request@)) },
            ]
            &&& r.0.phase is Done
        }),
{
    let (s0, a0) = archive_start(untar_path);
    let e0 = ArchiveEvent::DescriptionRead { request };
    let tail = tracks_present(request@.tracks.len());
    let events = seq![e0] + tail;
    assert(events[0] == e0);
    assert(events.drop_first() =~= tail);
    lemma_track_checks(untar_path, request@, 0);
    let t = check_track_or_finish(untar_path, request@, 0);
    assert(archive_next(s0, e0) == Some(t));
    assert(archive_run(s0, events).1 == seq![t.1] + archive_run(t.0, tail).1);
}

/// An archive whose description is missing from the unpack directory is
/// looked for in the last non-hidden directory of its listing; found there,
/// with all its tracks present, it is accepted with that directory.
pub proof fn lemma_archive_accepted_nested(untar_path: Seq<char>, entries: Vec<DirEntryInfo>, request: DropRequest)
    ensures
        ({
            let (s0, a0) = archive_start(untar_path);
            let root = drop_root(untar_path, entries@);
            let events = seq![
                ArchiveEvent::DescriptionUnreadable,
                ArchiveEvent::Listed { entries },
                ArchiveEvent::DescriptionRead { request },
            ] + tracks_present(request@.tracks.len());
            let r = archive_run(s0, events);
            &&& r.1 == seq![
                ArchiveActionView::ListDirectory { path: untar_path },
                ArchiveActionView::ReadDescription { path: description_path(root) },
            ] + track_checks(root, request@, 0) + seq![
                ArchiveActionView::Finish { result: Ok((root, request@)) },
            ]
            &&& r.0.phase is Done
        }),
{
    let (s0, a0) = archive_start(untar_path);
    let root = drop_root(untar_path, entries@);
    let e0 = ArchiveEvent::DescriptionUnreadable;
    let e1 = ArchiveEvent::Listed { entries };
    let e2 = ArchiveEvent::DescriptionRead { request };
    let tail = tracks_present(request@.tracks.len());
    let events = seq![e0, e1, e2] + tail;
    let s1 = ArchiveCheckView { root: untar_path, phase: ArchivePhaseView::Listing };
    let s2 = ArchiveCheckView { root, phase: ArchivePhaseView::ReadingNestedDescription };
    assert(events[0] == e0);
    assert(events.drop_first() =~= seq![e1, e2] + tail);
    assert((seq![e1, e2] + tail)[0] == e1);
    assert((seq![e1, e2] + tail).drop_first() =~= seq![e2] + tail);
    assert((seq![e2] + tail)[0] == e2);
    assert((seq![e2] + tail).drop_first() =~= tail);
    lemma_track_checks(root, request@, 0);
    let t = check_track_or_finish(root, request@, 0);
    assert(archive_next(s2, e2) == Some(t));
    assert(archive_run(s2, seq![e2] + tail).1 == seq![t.1] + archive_run(t.0, tail).1);
    assert(archive_run(s2, seq![e2] + tail).0 == archive_run(t.0, tail).0);
    assert(archive_run(s1, seq![e1, e2] + tail).1 == seq![
        ArchiveActionView::ReadDescription { path: description_path(root) },
    ] + archive_run(s2, seq![e2] + tail).1);
    assert(archive_run(s1, seq![e1, e2] + tail).0 == archive_run(t.0, tail).0);
    assert(archive_run(s0, events).1 == seq![
        ArchiveActionView::ListDirectory { path: untar_path },
    ] + archive_run(s1, seq![e1, e2] + tail).1);
    assert(archive_run(s0, events).0 == archive_run(t.0, tail).0);
    assert(archive_run(s0, events).1 =~= seq![
        ArchiveActionView::ListDirectory { path: untar_path },
        ArchiveActionView::ReadDescription { path: description_path(root) },
    ] + track_checks(root, request@, 0) + seq![
        ArchiveActionView::Finish { result: Ok((root, request@)) },
    ]);
}

// ---------------------------------------------------------------------------
// The import of every archive found in the import directory

/// HTTP status answered when the import directory is unset or is no directory.
pub const FAILED_DEPENDENCY: u16 = 424;

/// HTTP status answered when the import went through.
pub const OK_STATUS: u16 = 200;

/// Outcome of what a batch import asked for last.
pub enum BatchEvent {
    /// Whether the import path is a directory.
    IsDirectory { yes: bool },
    /// The import directory's listing (empty when it cannot be read).
    Listed { entries: Vec<DirEntryInfo> },
    /// The outcome of checking an archive (unpacking it and running an
    /// [`ArchiveCheck`] on it).
    ArchiveChecked { result: Result<(String, DropRequest), ImportError> },
    /// The drop of the checked archive was created.
    DropCreated,
    DropNotCreated,
}

/// What a batch import asks for next.
pub enum BatchAction {
    CheckDirectory { path: String },
    ListDirectory { path: String },
    /// Check the archive at `file`.
    CheckArchive { file: String },
    /// Create the drop described by `request`, unpacked in `import_path`.
    CreateDrop { import_path: String, request: DropRequest },
    /// Answer with this status, or this error.
    Respond { result: Result<u16, AppError> },
}

pub enum BatchActionView {
    CheckDirectory { path: Seq<char> },
    ListDirectory { path: Seq<char> },
    CheckArchive { file: Seq<char> },
    CreateDrop { import_path: Seq<char>, request: DropRequestView },
    Respond { result: Result<u16, AppError> },
}

impl View for BatchAction {
    type V = BatchActionView;

    open spec fn view(&self) -> BatchActionView {
        match self {
            BatchAction::CheckDirectory { path } => BatchActionView::CheckDirectory { path: path@ },
            BatchAction::ListDirectory { path } => BatchActionView::ListDirectory { path: path@ },
            BatchAction::CheckArchive { file } => BatchActionView::CheckArchive { file: file@ },
            BatchAction::CreateDrop { import_path, request } => BatchActionView::CreateDrop {
                import_path: import_path@,
                request: request@,
            },
            BatchAction::Respond { result } => BatchActionView::Respond { result: *result },
        }
    }
}

pub enum BatchPhase {
    CheckingDirectory,
    Listing,
    /// Archive `index` is being checked.
    CheckingArchive { index: usize },
    /// The drop of archive `index` is being created.
    CreatingDrop { index: usize },
    Done,
}

pub enum BatchPhaseView {
    CheckingDirectory,
    Listing,
    CheckingArchive { index: nat },
    CreatingDrop { index: nat },
    Done,
}

impl View for BatchPhase {
    type V = BatchPhaseView;

    open spec fn view(&self) -> BatchPhaseView {
        match self {
            BatchPhase::CheckingDirectory => BatchPhaseView::CheckingDirectory,
            BatchPhase::Listing => BatchPhaseView::Listing,
            BatchPhase::CheckingArchive { index } => BatchPhaseView::CheckingArchive { index: *index as nat },
            BatchPhase::CreatingDrop { index } => BatchPhaseView::CreatingDrop { index: *index as nat },
            BatchPhase::Done => BatchPhaseView::Done,
        }
    }
}

/// The import of the archives found in the import directory.
pub struct ImportBatch {
    import_path: String,
    files: Vec<String>,
    phase: BatchPhase,
}

pub struct ImportBatchView {
    pub import_path: Seq<char>,
    pub files: Seq<Seq<char>>,
    pub phase: BatchPhaseView,
}

impl View for ImportBatch {
    type V = ImportBatchView;

    closed spec fn view(&self) -> ImportBatchView {
        ImportBatchView { import_path: self.import_path@, files: strings_view(self.files@), phase: self.phase@ }
    }
}

pub open spec fn batch_respond(s: ImportBatchView, result: Result<u16, AppError>) -> (ImportBatchView, BatchActionView) {
    (ImportBatchView { phase: BatchPhaseView::Done, ..s }, BatchActionView::Respond { result })
}

/// Asks for the check of archive `index`, or answers `200` once every archive
/// has been dealt with.
pub open spec fn next_archive(s: ImportBatchView, index: nat) -> (ImportBatchView, BatchActionView) {
    if index < s.files.len() {
        (
            ImportBatchView { phase: BatchPhaseView::CheckingArchive { index }, ..s },
            BatchActionView::CheckArchive { file: s.files[index as int] },
        )
    } else {
        batch_respond(s, Ok(OK_STATUS))
    }
}

/// How a batch import begins: an unset (empty) import path is answered `424`.
pub open spec fn batch_start(import_path: Seq<char>) -> (ImportBatchView, BatchActionView) {
    let s = ImportBatchView { import_path, files: Seq::empty(), phase: BatchPhaseView::CheckingDirectory };
    if import_path.len() == 0 {
        batch_respond(s, Ok(FAILED_DEPENDENCY))
    } else {
        (s, BatchActionView::CheckDirectory { path: import_path })
    }
}

/// How a batch import moves on an event: a path that is no directory is
/// answered `424`; the archives of the listing are taken in order; a refused
/// archive is skipped; a drop that cannot be created ends the import with an
/// internal error; once every archive is dealt with, `200`.
pub open spec fn batch_next(s: ImportBatchView, e: BatchEvent) -> Option<(ImportBatchView, BatchActionView)> {
    match s.phase {
        BatchPhaseView::CheckingDirectory => match e {
            BatchEvent::IsDirectory { yes } => Some(
                if yes {
                    (
                        ImportBatchView { phase: BatchPhaseView::Listing, ..s },
                        BatchActionView::ListDirectory { path: s.import_path },
                    )
                } else {
                    batch_respond(s, Ok(FAILED_DEPENDENCY))
                },
            ),
            _ => None,
        },
        BatchPhaseView::Listing => match e {
            BatchEvent::Listed { entries } => Some(
                next_archive(ImportBatchView { files: archive_paths(entries@), ..s }, 0),
            ),
            _ => None,
        },
        BatchPhaseView::CheckingArchive { index } => match e {
            BatchEvent::ArchiveChecked { result } => Some(
                match result {
                    Ok((p, r)) => (
                        ImportBatchView { phase: BatchPhaseView::CreatingDrop { index }, ..s },
                        BatchActionView::CreateDrop { import_path: p@, request: r@ },
                    ),
                    Err(_) => next_archive(s, index + 1),
                },
            ),
            _ => None,
        },
        BatchPhaseView::CreatingDrop { index } => match e {
            BatchEvent::DropCreated => Some(next_archive(s, index + 1)),
            BatchEvent::DropNotCreated => Some(batch_respond(s, Err(AppError::InternalError))),
            _ => None,
        },
        BatchPhaseView::Done => None,
    }
}

impl ImportBatch {
    #[verifier::type_invariant]
    closed spec fn well_formed(self) -> bool {
        &&& self.phase matches BatchPhase::CheckingArchive { index } ==> index < self.files@.len()
        &&& self.phase matches BatchPhase::CreatingDrop { index } ==> index < self.files@.len()
    }

    /// Begins the import of the archives in `import_path`.
    pub fn start(import_path: String) -> (r: (ImportBatch, BatchAction))
        ensures
            (r.0@, r.1@) == batch_start(import_path@),
    {
        let files: Vec<String> = Vec::new();
        proof {
            assert(strings_view(files@) =~= Seq::<Seq<char>>::empty());
        }
        if import_path.unicode_len() == 0 {
            (ImportBatch { import_path, files, phase: BatchPhase::Done }, BatchAction::Respond { result: Ok(FAILED_DEPENDENCY) })
        } else {
            let path = import_path.clone();
            (ImportBatch { import_path, files, phase: BatchPhase::CheckingDirectory }, BatchAction::CheckDirectory { path })
        }
    }

    fn next_archive_exec(&mut self, index: usize) -> (action: BatchAction)
        requires
            index <= old(self).files@.len(),
        ensures
            (final(self)@, action@) == next_archive(old(self)@, index as nat),
    {
        if index < self.files.len() {
            let file = self.files[index].clone();
            self.phase = BatchPhase::CheckingArchive { index };
            BatchAction::CheckArchive { file }
        } else {
            self.phase = BatchPhase::Done;
            BatchAction::Respond { result: Ok(OK_STATUS) }
        }
    }

    /// Moves the import on the outcome of what it asked for last.
    pub fn step(&mut self, event: BatchEvent) -> (action: Option<BatchAction>)
        ensures
            match batch_next(old(self)@, event) {
                Some(t) => final(self)@ == t.0 && action is Some && action->0@ == t.1,
                None => final(self)@ == old(self)@ && action is None,
            },
    {
        proof { use_type_invariant(&*self); }
        let ghost old_self = *self;
        let mut phase = BatchPhase::Done;
        std::mem::swap(&mut phase, &mut self.phase);
        match phase {
            BatchPhase::CheckingDirectory => match event {
                BatchEvent::IsDirectory { yes } => {
                    if yes {
                        self.phase = BatchPhase::Listing;
                        Some(BatchAction::ListDirectory { path: self.import_path.clone() })
                    } else {
                        Some(BatchAction::Respond { result: Ok(FAILED_DEPENDENCY) })
                    }
                },
                _ => {
                    self.phase = BatchPhase::CheckingDirectory;
                    None
                },
            },
            BatchPhase::Listing => match event {
                BatchEvent::Listed { entries } => {
                    self.files = select_drop_archives(&entries);
                    Some(self.next_archive_exec(0))
                },
                _ => {
                    self.phase = BatchPhase::Listing;
                    None
                },
            },
            BatchPhase::CheckingArchive { index } => match event {
                BatchEvent::ArchiveChecked { result } => match result {
                    Ok((import_path, request)) => {
                        self.phase = BatchPhase::CreatingDrop { index };
                        Some(BatchAction::CreateDrop { import_path, request })
                    },
                    Err(_) => {
                        let n = self.files.len();
                        assert(old_self.well_formed() && index < n);
                        Some(self.next_archive_exec(index + 1))
                    },
                },
                _ => {
                    self.phase = BatchPhase::CheckingArchive { index };
                    None
                },
            },
            BatchPhase::CreatingDrop { index } => match event {
                BatchEvent::DropCreated => {
                    let n = self.files.len();
                    assert(old_self.well_formed() && index < n);
                    Some(self.next_archive_exec(index + 1))
                },
                BatchEvent::DropNotCreated => Some(BatchAction::Respond { result: Err(AppError::InternalError) }),
                _ => {
                    self.phase = BatchPhase::CreatingDrop { index };
                    None
                },
            },
            BatchPhase::Done => None,
        }
    }
}

/// A batch import answers only `424` (no usable import directory), `200`
/// (every archive dealt with), or an internal error (a drop could not be
/// created).
pub proof fn lemma_batch_answers(s: ImportBatchView, e: BatchEvent, import_path: Seq<char>)
    ensures
        ({
            let a = batch_start(import_path).1;
            a matches BatchActionView::Respond { result } ==> (result == Ok::<u16, AppError>(FAILED_DEPENDENCY))
        }),
        ({
            match batch_next(s, e) {
                Some(t) => t.1 matches BatchActionView::Respond { result } ==> (
                    result == Ok::<u16, AppError>(FAILED_DEPENDENCY)
                    || result == Ok::<u16, AppError>(OK_STATUS)
                    || result == Err::<u16, AppError>(AppError::InternalError)),
                None => true,
            }
        }),
{
}

/// The state and the actions of a batch import after a sequence of events
/// (events it does not wait for are ignored).
pub open spec fn batch_run(s: ImportBatchView, events: Seq<BatchEvent>) -> (ImportBatchView, Seq<BatchActionView>)
    decreases events.len(),
{
    if events.len() == 0 {
        (s, Seq::empty())
    } else {
        match batch_next(s, events[0]) {
            Some(t) => {
                let r = batch_run(t.0, events.drop_first());
                (r.0, seq![t.1] + r.1)
            },
            None => batch_run(s, events.drop_first()),
        }
    }
}

/// From archive `k` on, every archive is accepted (as `accepted[k]`, ...) and
/// its drop created.
pub open spec fn all_accepted(accepted: Seq<(String, DropRequest)>, k: nat) -> Seq<BatchEvent> {
    Seq::new(
        (2 * (accepted.len() - k)) as nat,
        |i: int|
            if i % 2 == 0 {
                BatchEvent::ArchiveChecked { result: Ok(accepted[k + i / 2]) }
            } else {
                BatchEvent::DropCreated
            },
    )
}

/// The checks and creations asked for, from archive `k` on, when every
/// archive is accepted.
pub open spec fn checks_and_creations(files: Seq<Seq<char>>, accepted: Seq<(String, DropRequest)>, k: nat) -> Seq<BatchActionView> {
    Seq::new(
        (2 * (accepted.len() - k)) as nat,
        |i: int|
            if i % 2 == 0 {
                BatchActionView::CheckArchive { file: files[k + i / 2] }
            } else {
                BatchActionView::CreateDrop {
                    import_path: accepted[k + i / 2].0@,
                    request: accepted[k + i / 2].1@,
                }
            },
    )
}

proof fn lemma_all_accepted(s: ImportBatchView, accepted: Seq<(String, DropRequest)>, k: nat)
    requires
        s.files.len() == accepted.len(),
        k <= accepted.len(),
    ensures
        ({
            let t = next_archive(s, k);
            let r = batch_run(t.0, all_accepted(accepted, k));
            &&& seq![t.1] + r.1 == checks_and_creations(s.files, accepted, k) + seq![
                BatchActionView::Respond { result: Ok(OK_STATUS) },
            ]
            &&& r.0.phase is Done
        }),
    decreases accepted.len() - k,
{
    let n = accepted.len();
    let t = next_archive(s, k);
    let evs = all_accepted(accepted, k);
    let fin = BatchActionView::Respond { result: Ok(OK_STATUS) };
    if k == n {
        assert(evs =~= Seq::<BatchEvent>::empty());
        assert(checks_and_creations(s.files, accepted, k) =~= Seq::<BatchActionView>::empty());
        assert(seq![t.1] + batch_run(t.0, evs).1 =~= checks_and_creations(s.files, accepted, k) + seq![fin]);
    } else {
        lemma_all_accepted(s, accepted, k + 1);
        let e0 = BatchEvent::ArchiveChecked { result: Ok(accepted[k as int]) };
        let e1 = BatchEvent::DropCreated;
        assert(evs[0] == e0);
        assert(evs[1] == e1);
        let s1 = ImportBatchView { phase: BatchPhaseView::CreatingDrop { index: k }, ..s };
        let a1 = BatchActionView::CreateDrop { import_path: accepted[k as int].0@, request: accepted[k as int].1@ };
        assert(batch_next(t.0, e0) == Some((s1, a1)));
        let t2 = next_archive(s, k + 1);
        assert(next_archive(s1, k + 1) == t2);
        assert(batch_next(s1, e1) == Some(t2));
        let rest = all_accepted(accepted, k + 1);
        assert(evs.drop_first() =~= seq![e1] + rest);
        assert((seq![e1] + rest)[0] == e1);
        assert((seq![e1] + rest).drop_first() =~= rest);
        let r2 = batch_run(t2.0, rest);
        assert(batch_run(s1, seq![e1] + rest).1 == seq![t2.1] + r2.1);
        assert(batch_run(s1, seq![e1] + rest).0 == r2.0);
        assert(batch_run(t.0, evs).1 == seq![a1] + batch_run(s1, seq![e1] + rest).1);
        assert(batch_run(t.0, evs).0 == r2.0);
        let cs = checks_and_creations(s.files, accepted, k);
        let cs2 = checks_and_creations(s.files, accepted, k + 1);
        assert forall|i: int| 0 <= i < cs.len() implies cs[i] == (seq![t.1, a1] + cs2)[i] by {
            if i >= 2 {
                assert((i - 2) % 2 == i % 2);
                assert(k + 1 + (i - 2) / 2 == k + i / 2);
            }
        }
        assert(cs =~= seq![t.1, a1] + cs2);
        assert(seq![t.1] + batch_run(t.0, evs).1 =~= cs + seq![fin]);
    }
}

/// A batch import over a directory whose listing holds drop archives, all of
/// which are accepted and have their drops created, checks each archive of
/// the listing in listing order, creates each one's drop right after its
/// check, and answers `200`.
pub proof fn lemma_batch_imports_every_accepted_archive(
    import_path: Seq<char>,
    entries: Vec<DirEntryInfo>,
    accepted: Seq<(String, DropRequest)>,
)
    requires
        import_path.len() > 0,
        accepted.len() == archive_paths(entries@).len(),
    ensures
        ({
            let (s0, a0) = batch_start(import_path);
            let events = seq![BatchEvent::IsDirectory { yes: true }, BatchEvent::Listed { entries }] + all_accepted(
                accepted,
                0,
            );
            let r = batch_run(s0, events);
            &&& a0 == BatchActionView::CheckDirectory { path: import_path }
            &&& r.1 == seq![BatchActionView::ListDirectory { path: import_path }] + checks_and_creations(
                archive_paths(entries@),
                accepted,
                0,
            ) + seq![BatchActionView::Respond { result: Ok(OK_STATUS) }]
            &&& r.0.phase is Done
        }),
{
    let (s0, a0) = batch_start(import_path);
    let e0 = BatchEvent::IsDirectory { yes: true };
    let e1 = BatchEvent::Listed { entries };
    let tail = all_accepted(accepted, 0);
    let events = seq![e0, e1] + tail;
    let s1 = ImportBatchView { phase: BatchPhaseView::Listing, ..s0 };
    let s2 = ImportBatchView { files: archive_paths(entries@), ..s1 };
    assert(events[0] == e0);
    assert(events.drop_first() =~= seq![e1] + tail);
    assert((seq![e1] + tail)[0] == e1);
    assert((seq![e1] + tail).drop_first() =~= tail);
    assert(batch_next(s1, e1) == Some(next_archive(s2, 0)));
    lemma_all_accepted(s2, accepted, 0);
    let t = next_archive(s2, 0);
    assert(batch_run(s1, seq![e1] + tail).1 == seq![t.1] + batch_run(t.0, tail).1);
    assert(batch_run(s1, seq![e1] + tail).0 == batch_run(t.0, tail).0);
    assert(batch_run(s0, events).1 == seq![BatchActionView::ListDirectory { path: import_path }] + batch_run(
        s1,
        seq![e1] + tail,
    ).1);
    assert(batch_run(s0, events).0 == batch_run(t.0, tail).0);
}

/// An archive check refuses on the first failure: a missing track (any
/// track, the last one included), a listing that cannot be read, or a
/// description found neither at the top nor one directory down.
pub proof fn lemma_archive_refusals(s: ArchiveCheckView, e: ArchiveEvent)
    ensures
        s.phase is CheckingTracks && e is TrackMissing ==> archive_next(s, e) == Some((
            ArchiveCheckView { root: s.root, phase: ArchivePhaseView::Done },
            ArchiveActionView::Finish { result: Err(ImportError::MissingTrackInDropArchive) },
        )),
        s.phase is Listing && e is ListingFailed ==> archive_next(s, e) == Some((
            ArchiveCheckView { root: s.root, phase: ArchivePhaseView::Done },
            ArchiveActionView::Finish { result: Err(ImportError::CantReadUntarDirectory) },
        )),
        s.phase is ReadingNestedDescription && e is DescriptionUnreadable ==> archive_next(s, e) == Some((
            ArchiveCheckView { root: s.root, phase: ArchivePhaseView::Done },
            ArchiveActionView::Finish { result: Err(ImportError::NoDropDescriptionFileFound) },
        )),
{
}

/// An archive is accepted only on the good news about its last track (the
/// track before it having been found, and so on), or on reading a
/// description that names no track; a missing track is never what accepts it.
pub proof fn lemma_archive_accepted_only_when_all_found(s: ArchiveCheckView, e: ArchiveEvent)
    ensures
        archive_next(s, e) is Some && (archive_next(s, e)->0).1 is Finish && (archive_next(s, e)->0).1->result is Ok
            ==> {
            let r = (archive_next(s, e)->0).1->result->Ok_0;
            ||| (e is TrackPresent && s.phase is CheckingTracks
                && s.phase->CheckingTracks_index + 1 >= s.phase->CheckingTracks_request.tracks.len()
                && r == (s.root, s.phase->CheckingTracks_request))
            ||| (e is DescriptionRead && e->request@.tracks.len() == 0 && r == (s.root, e->request@))
        },
        archive_next(s, e) is Some && (archive_next(s, e)->0).0.phase is CheckingTracks ==> {
            let p = (archive_next(s, e)->0).0.phase;
            ||| (e is TrackPresent && s.phase is CheckingTracks && s.phase->CheckingTracks_request
                == p->CheckingTracks_request && p->CheckingTracks_index == s.phase->CheckingTracks_index + 1)
            ||| (e is DescriptionRead && p->CheckingTracks_index == 0)
        },
{
}

/// A batch import answers an internal error as soon as one drop cannot be
/// created, whichever archive it is (the last one included); a path that is
/// no directory is answered `424`; a refused archive is skipped.
pub proof fn lemma_batch_failures(s: ImportBatchView, e: BatchEvent)
    ensures
        s.phase is CreatingDrop && e is DropNotCreated ==> batch_next(s, e) == Some((
            ImportBatchView { phase: BatchPhaseView::Done, ..s },
            BatchActionView::Respond { result: Err(AppError::InternalError) },
        )),
        s.phase is CheckingDirectory && e == (BatchEvent::IsDirectory { yes: false }) ==> batch_next(s, e) == Some((
            ImportBatchView { phase: BatchPhaseView::Done, ..s },
            BatchActionView::Respond { result: Ok(FAILED_DEPENDENCY) },
        )),
        s.phase is CheckingArchive && e is ArchiveChecked && e->result is Err && s.phase->CheckingArchive_index + 1
            < s.files.len() ==> batch_next(s, e) == Some((
            ImportBatchView { phase: BatchPhaseView::CheckingArchive { index: s.phase->CheckingArchive_index + 1 }, ..s },
            BatchActionView::CheckArchive { file: s.files[(s.phase->CheckingArchive_index + 1) as int] },
        )),
        batch_next(s, e) matches Some(t) && t.1 == (BatchActionView::Respond { result: Ok(OK_STATUS) }) ==> !(
        e is DropNotCreated),
{
}

/// The archives of a listing, one entry more: a regular file whose name
/// starts with `drop_` and whose path is readable adds its path at the end;
/// any other entry adds nothing.
pub proof fn lemma_archive_listing(entries: Seq<DirEntryInfo>, e: DirEntryInfo)
    ensures
        e.is_file && e.file_name is Some && "drop_"@.is_prefix_of(e.file_name->0@) && e.path is Some
            ==> archive_paths(entries.push(e)) == archive_paths(entries).push(e.path->0@),
        !e.is_file || e.file_name is None || !"drop_"@.is_prefix_of(e.file_name->0@) || e.path is None
            ==> archive_paths(entries.push(e)) == archive_paths(entries),
        archive_paths(Seq::empty()) == Seq::<Seq<char>>::empty(),
{
    assert(entries.push(e).drop_last() =~= entries);
}

/// The directory holding an unpacked drop, one listed entry more: a readable
/// directory whose name does not start with `.` becomes it; any other entry
/// leaves it as it was; with no entry it is the unpack directory itself.
pub proof fn lemma_drop_root_listing(current: Seq<char>, entries: Seq<DirEntryInfo>, e: DirEntryInfo)
    ensures
        e.is_dir && e.file_name is Some && !"."@.is_prefix_of(e.file_name->0@) && e.path is Some
            ==> drop_root(current, entries.push(e)) == e.path->0@,
        !e.is_dir || e.file_name is None || "."@.is_prefix_of(e.file_name->0@) || e.path is None
            ==> drop_root(current, entries.push(e)) == drop_root(current, entries),
        drop_root(current, Seq::empty()) == current,
{
    assert(entries.push(e).drop_last() =~= entries);
}

/// Where an archive is unpacked: refused unless its name ends with
/// `.tar.gz`, then unless it has a parent directory, then unless the clock
/// reads after the epoch; otherwise `<parent>_<milliseconds>`.
pub proof fn lemma_untar_dir(file: Seq<char>, now_millis: Option<u128>)
    ensures
        !".tar.gz"@.is_suffix_of(file) ==> untar_dir(file, now_millis) == Err::<Seq<char>, ImportError>(
            ImportError::InvalidFileExtension),
        ".tar.gz"@.is_suffix_of(file) && path_parent(file) is None ==> untar_dir(file, now_millis) == Err::<
            Seq<char>,
            ImportError,
        >(ImportError::NoFileParentDirectory),
        ".tar.gz"@.is_suffix_of(file) && path_parent(file) is Some && now_millis is None ==> untar_dir(file, now_millis)
            == Err::<Seq<char>, ImportError>(ImportError::InvalidUnixEpoch),
        ".tar.gz"@.is_suffix_of(file) && path_parent(file) is Some && now_millis is Some ==> untar_dir(file, now_millis)
            == Ok::<Seq<char>, ImportError>(path_parent(file)->0 + "_"@ + decimal(now_millis->0 as nat)),
{
}

/// How an archive check goes on after good news: it begins with
/// `<unpack directory>/drop.txt`; a description missing at the top has the
/// unpack directory listed; a listing has the description looked for in the
/// directory it designates; a description read has its first track looked
/// for under the directory it was read from (or the archive accepted when it
/// names no track); a track found has the next one looked for.
pub proof fn lemma_archive_progress(untar_path: Seq<char>, s: ArchiveCheckView, e: ArchiveEvent)
    ensures
        archive_start(untar_path) == (
            ArchiveCheckView { root: untar_path, phase: ArchivePhaseView::ReadingTopDescription },
            ArchiveActionView::ReadDescription { path: untar_path + "/drop.txt"@ },
        ),
        s.phase is ReadingTopDescription && e is DescriptionUnreadable ==> archive_next(s, e) == Some((
            ArchiveCheckView { root: s.root, phase: ArchivePhaseView::Listing },
            ArchiveActionView::ListDirectory { path: s.root },
        )),
        s.phase is Listing && e is Listed ==> archive_next(s, e) == Some((
            ArchiveCheckView { root: drop_root(s.root, e->entries@), phase: ArchivePhaseView::ReadingNestedDescription },
            ArchiveActionView::ReadDescription { path: drop_root(s.root, e->entries@) + "/drop.txt"@ },
        )),
        (s.phase is ReadingTopDescription || s.phase is ReadingNestedDescription) && e is DescriptionRead
            && e->request@.tracks.len() > 0 ==> archive_next(s, e) == Some((
            ArchiveCheckView {
                root: s.root,
                phase: ArchivePhaseView::CheckingTracks { request: e->request@, index: 0 },
            },
            ArchiveActionView::CheckTrack { path: s.root + "/"@ + e->request@.tracks[0] },
        )),
        s.phase is CheckingTracks && e is TrackPresent && s.phase->CheckingTracks_index + 1
            < s.phase->CheckingTracks_request.tracks.len() ==> archive_next(s, e) == Some((
            ArchiveCheckView {
                root: s.root,
                phase: ArchivePhaseView::CheckingTracks {
                    request: s.phase->CheckingTracks_request,
                    index: s.phase->CheckingTracks_index + 1,
                },
            },
            ArchiveActionView::CheckTrack {
                path: s.root + "/"@ + s.phase->CheckingTracks_request.tracks[(s.phase->CheckingTracks_index + 1) as int],
            },
        )),
{
}

/// How a batch import goes on: it begins by checking the import path (an
/// empty one is answered `424` at once); a directory is listed; the listing's
/// archives are taken from the first (`200` when there is none); an accepted
/// archive has its drop created from what the check returned; a created drop
/// moves on to the next archive (`200` after the last).
pub proof fn lemma_batch_progress(import_path: Seq<char>, s: ImportBatchView, e: BatchEvent)
    ensures
        import_path.len() == 0 ==> batch_start(import_path).1 == (BatchActionView::Respond {
            result: Ok(424),
        }),
        import_path.len() > 0 ==> batch_start(import_path).1 == (BatchActionView::CheckDirectory { path: import_path }),
        s.phase is CheckingDirectory && e == (BatchEvent::IsDirectory { yes: true }) ==> batch_next(s, e) == Some((
            ImportBatchView { phase: BatchPhaseView::Listing, ..s },
            BatchActionView::ListDirectory { path: s.import_path },
        )),
        s.phase is Listing && e is Listed ==> batch_next(s, e) == Some(
            if archive_paths(e->entries@).len() > 0 {
                (
                    ImportBatchView {
                        files: archive_paths(e->entries@),
                        phase: BatchPhaseView::CheckingArchive { index: 0 },
                        ..s
                    },
                    BatchActionView::CheckArchive { file: archive_paths(e->entries@)[0] },
                )
            } else {
                (
                    ImportBatchView { files: archive_paths(e->entries@), phase: BatchPhaseView::Done, ..s },
                    BatchActionView::Respond { result: Ok(200) },
                )
            },
        ),
        s.phase is CheckingArchive && e is ArchiveChecked && e->result is Ok ==> batch_next(s, e) == Some((
            ImportBatchView { phase: BatchPhaseView::CreatingDrop { index: s.phase->CheckingArchive_index }, ..s },
            BatchActionView::CreateDrop {
                import_path: (e->result->Ok_0).0@,
                request: (e->result->Ok_0).1@,
            },
        )),
        s.phase is CreatingDrop && e is DropCreated ==> batch_next(s, e) == Some(
            if s.phase->CreatingDrop_index + 1 < s.files.len() {
                (
                    ImportBatchView { phase: BatchPhaseView::CheckingArchive { index: s.phase->CreatingDrop_index + 1 }, ..s },
                    BatchActionView::CheckArchive { file: s.files[(s.phase->CreatingDrop_index + 1) as int] },
                )
            } else {
                (ImportBatchView { phase: BatchPhaseView::Done, ..s }, BatchActionView::Respond { result: Ok(200) })
            },
        ),
{
}

} // verus!
