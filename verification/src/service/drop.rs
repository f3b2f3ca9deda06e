//! Import of a drop: the request that describes it, the errors an import can
//! end with, the service that owns the repositories, and the import itself as a
//! state machine.  The machine decides; its driver performs each action it asks
//! for (a repository call, a directory creation, a file copy) and hands the
//! outcome back as the next event.

use vstd::prelude::*;
use vstd::string::*;
use crate::text::{
    push_decimal, push_signed_decimal, decimal, signed_decimal, lemma_common_prefix,
    lemma_decimal_injective, lemma_signed_decimal_injective, opt_string_view, strings_view,
};

verus! {

/// Name prefix of the directory that receives an artwork's tracks.
pub const ARTWORK_DIR_PREFIX: &'static str = "artwork_";

/// Name prefix of each track file copied into an artwork directory.
pub const TRACK_FILE_PREFIX: &'static str = "track_";

/// Why a drop could not be imported.
#[derive(Debug, Clone, Copy, PartialEq, Eq, Structural)]
pub enum ImportError {
    InvalidFileExtension,
    InvalidUnixEpoch,
    NoFileParentDirectory,
    InvalidParentDirectory,
    CantCreateDropUntarDirectory,
    CantCopyToUntarDirectory,
    CantOpenDropFile,
    CantUnpackDropFile,
    CantReadUntarDirectory,
    NoDropDescriptionFileFound,
    MissingTrackInDropArchive,
    ArtistIdAndArtistNameAreBothPresent,
    InvalidArtistId,
    DropRepositoryIsNone,
    ArtistRepositoryIsNone,
    ArtworkRepositoryIsNone,
    CantCreateArtistFromArtistName,
    CantCreateDropFromDropRequest,
    CantCreateArtworkFromArtworkName,
    CantCreateArtworkDirectoryInWebServer,
    CantCopyTrackFileToArtworkDirectory,
    NeitherArtistIdNorArtistNamePresent,
    CantFindArtistInRepository,
}

/// Description of a drop to import: the artist, by id or by name (exactly one
/// of the two is expected), the artwork's name and the track files.
#[derive(Clone)]
pub struct DropRequest {
    artist_id: Option<i32>,
    artist_name: Option<String>,
    artwork_name: String,
    tracks: Vec<String>,
}

/// Mathematical value of a [`DropRequest`].
pub struct DropRequestView {
    pub artist_id: Option<i32>,
    pub artist_name: Option<Seq<char>>,
    pub artwork_name: Seq<char>,
    pub tracks: Seq<Seq<char>>,
}

impl View for DropRequest {
    type V = DropRequestView;

    closed spec fn view(&self) -> DropRequestView {
        DropRequestView {
            artist_id: self.artist_id,
            artist_name: opt_string_view(self.artist_name),
            artwork_name: self.artwork_name@,
            tracks: strings_view(self.tracks@),
        }
    }
}

impl DropRequest {
    pub fn new(
        artist_id: Option<i32>,
        artist_name: Option<String>,
        artwork_name: String,
        tracks: Vec<String>,
    ) -> (r: DropRequest)
        ensures
            r@.artist_id == artist_id,
            r@.artist_name == opt_string_view(artist_name),
            r@.artwork_name == artwork_name@,
            r@.tracks == strings_view(tracks@),
    {
        DropRequest { artist_id, artist_name, artwork_name, tracks }
    }

    pub fn artist_id(&self) -> (r: &Option<i32>)
        ensures
            *r == self@.artist_id,
    {
        &self.artist_id
    }

    pub fn artist_name(&self) -> (r: &Option<String>)
        ensures
            opt_string_view(*r) == self@.artist_name,
    {
        &self.artist_name
    }

    pub fn artwork_name(&self) -> (r: &str)
        ensures
            r@ == self@.artwork_name,
    {
        self.artwork_name.as_str()
    }

    pub fn tracks(&self) -> (r: &Vec<String>)
        ensures
            strings_view(r@) == self@.tracks,
    {
        &self.tracks
    }
}


/// The service that imports drops, holding the repositories of drops,
/// artists and artworks.
#[derive(Debug, Clone)]
pub struct DropService<T, U, V> {
    drop_repository: T,
    artist_repository: U,
    artwork_repository: V,
}

impl<T, U, V> DropService<T, U, V> {
    /// The drop, artist and artwork repositories held by the service.
    pub closed spec fn repositories(&self) -> (T, U, V) {
        (self.drop_repository, self.artist_repository, self.artwork_repository)
    }

    pub fn new(drop_repository: T, artist_repository: U, artwork_repository: V) -> (r: DropService<T, U, V>)
        ensures
            r.repositories() == (drop_repository, artist_repository, artwork_repository),
    {
        DropService { drop_repository, artist_repository, artwork_repository }
    }

    pub fn drop_repository(&self) -> (r: &T)
        ensures
            *r == self.repositories().0,
    {
        &self.drop_repository
    }

    pub fn artist_repository(&self) -> (r: &U)
        ensures
            *r == self.repositories().1,
    {
        &self.artist_repository
    }

    pub fn artwork_repository(&self) -> (r: &V)
        ensures
            *r == self.repositories().2,
    {
        &self.artwork_repository
    }

    /// Begins the import of `drop_request`, unpacked in `drop_import_path`,
    /// into the web server rooted at `web_server_path` (see [`DropImport`]).
    pub fn start_import(&self, drop_import_path: &String, drop_request: DropRequest, web_server_path: &String) -> (r: (
        DropImport,
        ImportAction,
    ))
        ensures
            (r.0@, r.1@) == import_start(drop_import_path@, drop_request@, web_server_path@),
    {
        DropImport::start(drop_import_path.clone(), drop_request, web_server_path.clone())
    }
}

/// Directory, under the web server's root, that receives an artwork's tracks.
pub open spec fn artwork_dir_path(web_server_path: Seq<char>, artwork_id: int) -> Seq<char> {
    web_server_path + "/"@ + ARTWORK_DIR_PREFIX@ + signed_decimal(artwork_id)
}

/// Where a track of the request lies in the unpacked archive.
pub open spec fn track_source_path(import_path: Seq<char>, track: Seq<char>) -> Seq<char> {
    import_path + "/"@ + track
}

/// Where the track with the given (1-based) number is copied.
pub open spec fn track_target_path(artwork_dir: Seq<char>, number: nat) -> Seq<char> {
    artwork_dir + "/"@ + TRACK_FILE_PREFIX@ + decimal(number)
}

/// Outcome of the action last asked for, handed back to the import.
pub enum ImportEvent {
    ArtistFound { artist_id: i32, artist_name: String },
    ArtistNotFound,
    ArtworkSaved { artwork_id: i32 },
    ArtworkNotSaved,
    DropSaved { drop_id: i32 },
    DropNotSaved,
    DirectoryCreated,
    DirectoryNotCreated,
    TrackCopied,
    TrackNotCopied,
}

/// What the import asks its driver to do next.
pub enum ImportAction {
    /// Look the artist up by id.
    FindArtistById { artist_id: i32 },
    /// Look the artist up by name.
    FindArtistByName { artist_name: String },
    /// Save a new artwork (id 0, dated now) of the artist.
    SaveArtwork { artist_id: i32, artwork_name: String },
    /// Save a new drop (id 0).
    SaveDrop { artwork_id: i32, name: String, dir: String },
    /// Create the artwork directory.
    CreateDirectory { path: String },
    /// Copy one track file.
    CopyTrack { from: String, to: String },
    /// The import is over, with this result.
    Finish { result: Result<(), ImportError> },
}

pub enum ImportActionView {
    FindArtistById { artist_id: i32 },
    FindArtistByName { artist_name: Seq<char> },
    SaveArtwork { artist_id: i32, artwork_name: Seq<char> },
    SaveDrop { artwork_id: i32, name: Seq<char>, dir: Seq<char> },
    CreateDirectory { path: Seq<char> },
    CopyTrack { from: Seq<char>, to: Seq<char> },
    Finish { result: Result<(), ImportError> },
}

impl View for ImportAction {
    type V = ImportActionView;

    open spec fn view(&self) -> ImportActionView {
        match self {
            ImportAction::FindArtistById { artist_id } => ImportActionView::FindArtistById { artist_id: *artist_id },
            ImportAction::FindArtistByName { artist_name } => ImportActionView::FindArtistByName { artist_name: artist_name@ },
            ImportAction::SaveArtwork { artist_id, artwork_name } => ImportActionView::SaveArtwork {
                artist_id: *artist_id,
                artwork_name: artwork_name@,
            },
            ImportAction::SaveDrop { artwork_id, name, dir } => ImportActionView::SaveDrop {
                artwork_id: *artwork_id,
                name: name@,
                dir: dir@,
            },
            ImportAction::CreateDirectory { path } => ImportActionView::CreateDirectory { path: path@ },
            ImportAction::CopyTrack { from, to } => ImportActionView::CopyTrack { from: from@, to: to@ },
            ImportAction::Finish { result } => ImportActionView::Finish { result: *result },
        }
    }
}

/// Where an import stands: which outcome it waits for.
pub enum ImportPhase {
    AwaitingArtist { by_id: bool },
    AwaitingArtwork { artist_name: String },
    AwaitingDrop { artwork_dir: String },
    AwaitingDirectory { artwork_dir: String },
    /// The copy of track `index` (0-based) was asked for.
    Copying { artwork_dir: String, index: usize },
    Finished,
}

pub enum ImportPhaseView {
    AwaitingArtist { by_id: bool },
    AwaitingArtwork { artist_name: Seq<char> },
    AwaitingDrop { artwork_dir: Seq<char> },
    AwaitingDirectory { artwork_dir: Seq<char> },
    Copying { artwork_dir: Seq<char>, index: nat },
    Finished,
}

impl View for ImportPhase {
    type V = ImportPhaseView;

    open spec fn view(&self) -> ImportPhaseView {
        match self {
            ImportPhase::AwaitingArtist { by_id } => ImportPhaseView::AwaitingArtist { by_id: *by_id },
            ImportPhase::AwaitingArtwork { artist_name } => ImportPhaseView::AwaitingArtwork { artist_name: artist_name@ },
            ImportPhase::AwaitingDrop { artwork_dir } => ImportPhaseView::AwaitingDrop { artwork_dir: artwork_dir@ },
            ImportPhase::AwaitingDirectory { artwork_dir } => ImportPhaseView::AwaitingDirectory { artwork_dir: artwork_dir@ },
            ImportPhase::Copying { artwork_dir, index } => ImportPhaseView::Copying {
                artwork_dir: artwork_dir@,
                index: *index as nat,
            },
            ImportPhase::Finished => ImportPhaseView::Finished,
        }
    }
}

/// One import of a drop: the unpacked archive's directory, the request read
/// from it, the web server's root, and the phase reached.
pub struct DropImport {
    drop_import_path: String,
    web_server_path: String,
    request: DropRequest,
    phase: ImportPhase,
}

pub struct DropImportView {
    pub import_path: Seq<char>,
    pub web_server_path: Seq<char>,
    pub request: DropRequestView,
    pub phase: ImportPhaseView,
}

impl View for DropImport {
    type V = DropImportView;

    closed spec fn view(&self) -> DropImportView {
        DropImportView {
            import_path: self.drop_import_path@,
            web_server_path: self.web_server_path@,
            request: self.request@,
            phase: self.phase@,
        }
    }
}

/// The same import in another phase.
pub open spec fn with_phase(s: DropImportView, phase: ImportPhaseView) -> DropImportView {
    DropImportView { phase, ..s }
}

/// Ends the import with `result`.
pub open spec fn finish(s: DropImportView, result: Result<(), ImportError>) -> (DropImportView, ImportActionView) {
    (with_phase(s, ImportPhaseView::Finished), ImportActionView::Finish { result })
}

/// Asks for the copy of track `index`, or ends the import successfully when
/// every track has been copied.
pub open spec fn copy_or_finish(s: DropImportView, artwork_dir: Seq<char>, index: nat) -> (DropImportView, ImportActionView) {
    if index < s.request.tracks.len() {
        (
            with_phase(s, ImportPhaseView::Copying { artwork_dir, index }),
            ImportActionView::CopyTrack {
                from: track_source_path(s.import_path, s.request.tracks[index as int]),
                to: track_target_path(artwork_dir, index + 1),
            },
        )
    } else {
        finish(s, Ok(()))
    }
}

/// How an import begins: a request that names both an artist id and an
/// artist name, or neither, ends at once; otherwise the artist is looked up.
pub open spec fn import_start(
    import_path: Seq<char>,
    request: DropRequestView,
    web_server_path: Seq<char>,
) -> (DropImportView, ImportActionView) {
    let s = DropImportView {
        import_path,
        web_server_path,
        request,
        phase: ImportPhaseView::Finished,
    };
    if request.artist_id is Some && request.artist_name is Some {
        finish(s, Err(ImportError::ArtistIdAndArtistNameAreBothPresent))
    } else if request.artist_id is None && request.artist_name is None {
        finish(s, Err(ImportError::NeitherArtistIdNorArtistNamePresent))
    } else if request.artist_id is Some {
        (
            with_phase(s, ImportPhaseView::AwaitingArtist { by_id: true }),
            ImportActionView::FindArtistById { artist_id: request.artist_id->0 },
        )
    } else {
        (
            with_phase(s, ImportPhaseView::AwaitingArtist { by_id: false }),
            ImportActionView::FindArtistByName { artist_name: request.artist_name->0 },
        )
    }
}

/// How an import moves on an event: the next import and the action it asks
/// for, or `None` when the event is not the outcome the import waits for.
pub open spec fn import_next(s: DropImportView, e: ImportEvent) -> Option<(DropImportView, ImportActionView)> {
    match s.phase {
        ImportPhaseView::AwaitingArtist { by_id } => match e {
            ImportEvent::ArtistFound { artist_id, artist_name } => Some((
                with_phase(s, ImportPhaseView::AwaitingArtwork { artist_name: artist_name@ }),
                ImportActionView::SaveArtwork { artist_id, artwork_name: s.request.artwork_name },
            )),
            ImportEvent::ArtistNotFound => Some(finish(
                s,
                Err(if by_id { ImportError::InvalidArtistId } else { ImportError::CantCreateArtistFromArtistName }),
            )),
            _ => None,
        },
        ImportPhaseView::AwaitingArtwork { artist_name } => match e {
            ImportEvent::ArtworkSaved { artwork_id } => {
                let dir = artwork_dir_path(s.web_server_path, artwork_id as int);
                Some((
                    with_phase(s, ImportPhaseView::AwaitingDrop { artwork_dir: dir }),
                    ImportActionView::SaveDrop { artwork_id, name: artist_name, dir },
                ))
            },
            ImportEvent::ArtworkNotSaved => Some(finish(s, Err(ImportError::CantCreateArtworkFromArtworkName))),
            _ => None,
        },
        ImportPhaseView::AwaitingDrop { artwork_dir } => match e {
            ImportEvent::DropSaved { drop_id } => Some((
                with_phase(s, ImportPhaseView::AwaitingDirectory { artwork_dir }),
                ImportActionView::CreateDirectory { path: artwork_dir },
            )),
            ImportEvent::DropNotSaved => Some(finish(s, Err(ImportError::CantCreateDropFromDropRequest))),
            _ => None,
        },
        ImportPhaseView::AwaitingDirectory { artwork_dir } => match e {
            ImportEvent::DirectoryCreated => Some(copy_or_finish(s, artwork_dir, 0)),
            ImportEvent::DirectoryNotCreated => Some(finish(s, Err(ImportError::CantCreateArtworkDirectoryInWebServer))),
            _ => None,
        },
        ImportPhaseView::Copying { artwork_dir, index } => match e {
            ImportEvent::TrackCopied => Some(copy_or_finish(s, artwork_dir, index + 1)),
            ImportEvent::TrackNotCopied => Some(finish(s, Err(ImportError::CantCopyTrackFileToArtworkDirectory))),
            _ => None,
        },
        ImportPhaseView::Finished => None,
    }
}

/// `base + "/" + segment`.
fn join_path(base: &String, segment: &str) -> (r: String)
    ensures
        r@ == base@ + "/"@ + segment@,
{
    let mut r = base.clone();
    r.append("/");
    r.append(segment);
    r
}

fn make_artwork_dir(web_server_path: &String, artwork_id: i32) -> (r: String)
    ensures
        r@ == artwork_dir_path(web_server_path@, artwork_id as int),
{
    let mut r = join_path(web_server_path, ARTWORK_DIR_PREFIX);
    push_signed_decimal(&mut r, artwork_id as i64);
    assert(r@ =~= artwork_dir_path(web_server_path@, artwork_id as int));
    r
}

fn make_track_target(artwork_dir: &String, number: usize) -> (r: String)
    ensures
        r@ == track_target_path(artwork_dir@, number as nat),
{
    let mut r = join_path(artwork_dir, TRACK_FILE_PREFIX);
    push_decimal(&mut r, number as u128);
    assert(r@ =~= track_target_path(artwork_dir@, number as nat));
    r
}

impl DropImport {
    #[verifier::type_invariant]
    closed spec fn well_formed(self) -> bool {
        self.phase matches ImportPhase::Copying { index, .. } ==> index < self.request.tracks@.len()
    }

    /// Begins the import of `drop_request`, unpacked in `drop_import_path`,
    /// into the web server rooted at `web_server_path`.
    pub fn start(drop_import_path: String, drop_request: DropRequest, web_server_path: String) -> (r: (
        DropImport,
        ImportAction,
    ))
        ensures
            (r.0@, r.1@) == import_start(drop_import_path@, drop_request@, web_server_path@),
    {
        let (phase, action) = if drop_request.artist_id.is_some() && drop_request.artist_name.is_some() {
            (ImportPhase::Finished, ImportAction::Finish { result: Err(ImportError::ArtistIdAndArtistNameAreBothPresent) })
        } else if drop_request.artist_id.is_none() && drop_request.artist_name.is_none() {
            (ImportPhase::Finished, ImportAction::Finish { result: Err(ImportError::NeitherArtistIdNorArtistNamePresent) })
        } else {
            match &drop_request.artist_id {
                Some(id) => (ImportPhase::AwaitingArtist { by_id: true }, ImportAction::FindArtistById { artist_id: *id }),
                None => {
                    let name = drop_request.artist_name.as_ref().unwrap().clone();
                    (ImportPhase::AwaitingArtist { by_id: false }, ImportAction::FindArtistByName { artist_name: name })
                },
            }
        };
        let r = DropImport { drop_import_path, web_server_path, request: drop_request, phase };
        (r, action)
    }

    /// Whether the import is over.
    pub fn is_finished(&self) -> (r: bool)
        ensures
            r == (self@.phase is Finished),
    {
        match self.phase {
            ImportPhase::Finished => true,
            _ => false,
        }
    }

    fn copy_or_finish_exec(&mut self, artwork_dir: String, index: usize) -> (action: ImportAction)
        requires
            index <= old(self).request@.tracks.len(),
        ensures
            (final(self)@, action@) == copy_or_finish(old(self)@, artwork_dir@, index as nat),
    {
        proof { use_type_invariant(&*self); }
        if index < self.request.tracks.len() {
            let from = join_path(&self.drop_import_path, self.request.tracks[index].as_str());
            let to = make_track_target(&artwork_dir, index + 1);
            self.phase = ImportPhase::Copying { artwork_dir, index };
            ImportAction::CopyTrack { from, to }
        } else {
            self.phase = ImportPhase::Finished;
            ImportAction::Finish { result: Ok(()) }
        }
    }

    /// Moves the import on the outcome of the action it asked for last.  An
    /// event that is not that outcome leaves the import as it is and asks for
    /// nothing.
    pub fn step(&mut self, event: ImportEvent) -> (action: Option<ImportAction>)
        ensures
            match import_next(old(self)@, event) {
                Some(t) => final(self)@ == t.0 && action is Some && action->0@ == t.1,
                None => final(self)@ == old(self)@ && action is None,
            },
    {
        proof { use_type_invariant(&*self); }
        let ghost old_self = *self;
        let mut phase = ImportPhase::Finished;
        std::mem::swap(&mut phase, &mut self.phase);
        match phase {
            ImportPhase::AwaitingArtist { by_id } => match event {
                ImportEvent::ArtistFound { artist_id, artist_name } => {
                    self.phase = ImportPhase::AwaitingArtwork { artist_name };
                    Some(ImportAction::SaveArtwork { artist_id, artwork_name: self.request.artwork_name.clone() })
                },
                ImportEvent::ArtistNotFound => {
                    let e = if by_id { ImportError::InvalidArtistId } else { ImportError::CantCreateArtistFromArtistName };
                    Some(ImportAction::Finish { result: Err(e) })
                },
                _ => {
                    self.phase = ImportPhase::AwaitingArtist { by_id };
                    None
                },
            },
            ImportPhase::AwaitingArtwork { artist_name } => match event {
                ImportEvent::ArtworkSaved { artwork_id } => {
                    let dir = make_artwork_dir(&self.web_server_path, artwork_id);
                    let dir2 = dir.clone();
                    self.phase = ImportPhase::AwaitingDrop { artwork_dir: dir };
                    Some(ImportAction::SaveDrop { artwork_id, name: artist_name, dir: dir2 })
                },
                ImportEvent::ArtworkNotSaved => {
                    Some(ImportAction::Finish { result: Err(ImportError::CantCreateArtworkFromArtworkName) })
                },
                _ => {
                    self.phase = ImportPhase::AwaitingArtwork { artist_name };
                    None
                },
            },
            ImportPhase::AwaitingDrop { artwork_dir } => match event {
                ImportEvent::DropSaved { drop_id } => {
                    let path = artwork_dir.clone();
                    self.phase = ImportPhase::AwaitingDirectory { artwork_dir };
                    Some(ImportAction::CreateDirectory { path })
                },
                ImportEvent::DropNotSaved => {
                    Some(ImportAction::Finish { result: Err(ImportError::CantCreateDropFromDropRequest) })
                },
                _ => {
                    self.phase = ImportPhase::AwaitingDrop { artwork_dir };
                    None
                },
            },
            ImportPhase::AwaitingDirectory { artwork_dir } => match event {
                ImportEvent::DirectoryCreated => Some(self.copy_or_finish_exec(artwork_dir, 0)),
                ImportEvent::DirectoryNotCreated => {
                    Some(ImportAction::Finish { result: Err(ImportError::CantCreateArtworkDirectoryInWebServer) })
                },
                _ => {
                    self.phase = ImportPhase::AwaitingDirectory { artwork_dir };
                    None
                },
            },
            ImportPhase::Copying { artwork_dir, index } => match event {
                ImportEvent::TrackCopied => {
                    let n = self.request.tracks.len();
                    assert(old_self.well_formed() && index < n);
                    Some(self.copy_or_finish_exec(artwork_dir, index + 1))
                },
                ImportEvent::TrackNotCopied => {
                    Some(ImportAction::Finish { result: Err(ImportError::CantCopyTrackFileToArtworkDirectory) })
                },
                _ => {
                    self.phase = ImportPhase::Copying { artwork_dir, index };
                    None
                },
            },
            ImportPhase::Finished => None,
        }
    }
}

/// The state and the actions of an import after a sequence of events, from
/// state `s` (events it does not wait for are ignored).
pub open spec fn import_run(s: DropImportView, events: Seq<ImportEvent>) -> (DropImportView, Seq<ImportActionView>)
    decreases events.len(),
{
    if events.len() == 0 {
        (s, Seq::empty())
    } else {
        match import_next(s, events[0]) {
            Some(t) => {
                let r = import_run(t.0, events.drop_first());
                (r.0, seq![t.1] + r.1)
            },
            None => import_run(s, events.drop_first()),
        }
    }
}

/// `n` successful copies in a row.
pub open spec fn copies_succeed(n: nat) -> Seq<ImportEvent> {
    Seq::new(n, |i: int| ImportEvent::TrackCopied)
}

/// The copies asked for, from track `from` on, into `artwork_dir`.
pub open spec fn copy_actions(s: DropImportView, artwork_dir: Seq<char>, from: nat) -> Seq<ImportActionView> {
    Seq::new(
        (s.request.tracks.len() - from) as nat,
        |i: int| ImportActionView::CopyTrack {
            from: track_source_path(s.import_path, s.request.tracks[from + i]),
            to: track_target_path(artwork_dir, (from + i + 1) as nat),
        },
    )
}

proof fn lemma_copies(s: DropImportView, artwork_dir: Seq<char>, k: nat)
    requires
        k <= s.request.tracks.len(),
    ensures
        ({
            let t = copy_or_finish(s, artwork_dir, k);
            let r = import_run(t.0, copies_succeed((s.request.tracks.len() - k) as nat));
            &&& seq![t.1] + r.1 == copy_actions(s, artwork_dir, k) + seq![
                ImportActionView::Finish { result: Ok(()) },
            ]
            &&& r.0 == with_phase(s, ImportPhaseView::Finished)
        }),
    decreases s.request.tracks.len() - k,
{
    let len = s.request.tracks.len();
    let t = copy_or_finish(s, artwork_dir, k);
    let evs = copies_succeed((len - k) as nat);
    if k == len {
        assert(evs =~= Seq::<ImportEvent>::empty());
        assert(copy_actions(s, artwork_dir, k) =~= Seq::<ImportActionView>::empty());
        assert(seq![t.1] + import_run(t.0, evs).1 =~= copy_actions(s, artwork_dir, k) + seq![
            ImportActionView::Finish { result: Ok(()) },
        ]);
    } else {
        lemma_copies(s, artwork_dir, k + 1);
        let s1 = t.0;
        assert(evs[0] == ImportEvent::TrackCopied);
        assert(import_next(s1, evs[0]) == Some(copy_or_finish(s1, artwork_dir, k + 1)));
        assert(copy_or_finish(s1, artwork_dir, k + 1) == copy_or_finish(s, artwork_dir, k + 1));
        assert(evs.drop_first() =~= copies_succeed((len - (k + 1)) as nat));
        let t2 = copy_or_finish(s, artwork_dir, k + 1);
        let r2 = import_run(t2.0, copies_succeed((len - (k + 1)) as nat));
        assert(import_run(s1, evs).1 == seq![t2.1] + r2.1);
        assert(copy_actions(s, artwork_dir, k) =~= seq![t.1] + copy_actions(s, artwork_dir, k + 1));
        assert(seq![t.1] + import_run(t.0, evs).1 =~= copy_actions(s, artwork_dir, k) + seq![
            ImportActionView::Finish { result: Ok(()) },
        ]);
    }
}

/// A drop whose request names exactly one artist, when the artist is found,
/// the artwork and the drop are saved, the artwork directory is created and
/// every copy succeeds, is imported by saving the artwork under the request's
/// name, saving the drop under the artist's name with the artwork directory
/// `<web server>/artwork_<artwork id>`, creating that directory, copying the
/// `k`-th track of the request (from `<import path>/<track>`) to
/// `<artwork directory>/track_<k>` in the request's order, and finishing `Ok`.
pub proof fn lemma_successful_import(
    import_path: Seq<char>,
    request: DropRequestView,
    web_server_path: Seq<char>,
    artist_id: i32,
    artist_name: String,
    artwork_id: i32,
    drop_id: i32,
)
    requires
        request.artist_id is Some != request.artist_name is Some,
    ensures
        ({
            let (s0, a0) = import_start(import_path, request, web_server_path);
            let dir = artwork_dir_path(web_server_path, artwork_id as int);
            let events = seq![
                ImportEvent::ArtistFound { artist_id, artist_name },
                ImportEvent::ArtworkSaved { artwork_id },
                ImportEvent::DropSaved { drop_id },
                ImportEvent::DirectoryCreated,
            ] + copies_succeed(request.tracks.len());
            let r = import_run(s0, events);
            &&& a0 == (if request.artist_id is Some {
                ImportActionView::FindArtistById { artist_id: request.artist_id->0 }
            } else {
                ImportActionView::FindArtistByName { artist_name: request.artist_name->0 }
            })
            &&& r.1 == seq![
                ImportActionView::SaveArtwork { artist_id, artwork_name: request.artwork_name },
                ImportActionView::SaveDrop { artwork_id, name: artist_name@, dir },
                ImportActionView::CreateDirectory { path: dir },
            ] + copy_actions(s0, dir, 0) + seq![ImportActionView::Finish { result: Ok(()) }]
            &&& r.0.phase is Finished
        }),
{
    let (s0, a0) = import_start(import_path, request, web_server_path);
    let dir = artwork_dir_path(web_server_path, artwork_id as int);
    let e1 = ImportEvent::ArtistFound { artist_id, artist_name };
    let e2 = ImportEvent::ArtworkSaved { artwork_id };
    let e3 = ImportEvent::DropSaved { drop_id };
    let e4 = ImportEvent::DirectoryCreated;
    let tail = copies_succeed(request.tracks.len());
    let events = seq![e1, e2, e3, e4] + tail;
    let s1 = with_phase(s0, ImportPhaseView::AwaitingArtwork { artist_name: artist_name@ });
    let s2 = with_phase(s0, ImportPhaseView::AwaitingDrop { artwork_dir: dir });
    let s3 = with_phase(s0, ImportPhaseView::AwaitingDirectory { artwork_dir: dir });
    let a1 = ImportActionView::SaveArtwork { artist_id, artwork_name: request.artwork_name };
    let a2 = ImportActionView::SaveDrop { artwork_id, name: artist_name@, dir };
    let a3 = ImportActionView::CreateDirectory { path: dir };
    assert(events[0] == e1);
    assert(import_next(s0, e1) == Some((s1, a1)));
    assert(events.drop_first() =~= seq![e2, e3, e4] + tail);
    assert((seq![e2, e3, e4] + tail)[0] == e2);
    assert(import_next(s1, e2) == Some((s2, a2)));
    assert((seq![e2, e3, e4] + tail).drop_first() =~= seq![e3, e4] + tail);
    assert((seq![e3, e4] + tail)[0] == e3);
    assert(import_next(s2, e3) == Some((s3, a3)));
    assert((seq![e3, e4] + tail).drop_first() =~= seq![e4] + tail);
    assert((seq![e4] + tail)[0] == e4);
    assert(import_next(s3, e4) == Some(copy_or_finish(s3, dir, 0)));
    assert((seq![e4] + tail).drop_first() =~= tail);
    assert(copy_or_finish(s3, dir, 0) == copy_or_finish(s0, dir, 0));
    lemma_copies(s0, dir, 0);
    let t = copy_or_finish(s0, dir, 0);
    let rt = import_run(t.0, tail);
    assert(import_run(s3, seq![e4] + tail).1 == seq![t.1] + rt.1);
    assert(import_run(s3, seq![e4] + tail).0 == rt.0);
    assert(import_run(s2, seq![e3, e4] + tail).1 == seq![a3] + import_run(s3, seq![e4] + tail).1);
    assert(import_run(s2, seq![e3, e4] + tail).0 == rt.0);
    assert(import_run(s1, seq![e2, e3, e4] + tail).1 == seq![a2] + import_run(s2, seq![e3, e4] + tail).1);
    assert(import_run(s1, seq![e2, e3, e4] + tail).0 == rt.0);
    assert(import_run(s0, events).1 == seq![a1] + import_run(s1, seq![e2, e3, e4] + tail).1);
    assert(import_run(s0, events).0 == rt.0);
    assert(import_run(s0, events).1 =~= seq![a1, a2, a3] + (seq![t.1] + rt.1));
    assert(import_run(s0, events).1 =~= seq![a1, a2, a3] + copy_actions(s0, dir, 0) + seq![
        ImportActionView::Finish { result: Ok(()) },
    ]);
}

/// Once an import has finished it ignores every further event.
pub proof fn lemma_finished_import_ignores_events(s: DropImportView, e: ImportEvent)
    requires
        s.phase is Finished,
    ensures
        import_next(s, e) is None,
{
}

/// Two different track numbers never name the same file of an artwork
/// directory: no copied track overwrites another.
pub proof fn lemma_track_targets_distinct(artwork_dir: Seq<char>, i: nat, j: nat)
    requires
        i != j,
    ensures
        track_target_path(artwork_dir, i) != track_target_path(artwork_dir, j),
{
    if track_target_path(artwork_dir, i) == track_target_path(artwork_dir, j) {
        let p = artwork_dir + "/"@ + TRACK_FILE_PREFIX@;
        assert(track_target_path(artwork_dir, i) == p + decimal(i));
        assert(track_target_path(artwork_dir, j) == p + decimal(j));
        lemma_common_prefix(p, decimal(i), decimal(j));
        lemma_decimal_injective(i, j);
    }
}

/// Two different artworks never share a directory in the web server.
pub proof fn lemma_artwork_dirs_distinct(web_server_path: Seq<char>, a: int, b: int)
    requires
        a != b,
    ensures
        artwork_dir_path(web_server_path, a) != artwork_dir_path(web_server_path, b),
{
    if artwork_dir_path(web_server_path, a) == artwork_dir_path(web_server_path, b) {
        let p = web_server_path + "/"@ + ARTWORK_DIR_PREFIX@;
        assert(artwork_dir_path(web_server_path, a) == p + signed_decimal(a));
        assert(artwork_dir_path(web_server_path, b) == p + signed_decimal(b));
        lemma_common_prefix(p, signed_decimal(a), signed_decimal(b));
        lemma_signed_decimal_injective(a, b);
    }
}

/// Every failed step ends the import at once with the error of that step,
/// and asks for nothing more (no directory, no copy): an unknown artist
/// (`InvalidArtistId` when looked up by id, `CantCreateArtistFromArtistName`
/// by name), an artwork or a drop that cannot be saved, a directory that
/// cannot be created, a track that cannot be copied.
pub proof fn lemma_failed_step_ends_import(s: DropImportView, e: ImportEvent)
    ensures
        s.phase is AwaitingArtist && e is ArtistNotFound ==> import_next(s, e) == Some((
            DropImportView { phase: ImportPhaseView::Finished, ..s },
            ImportActionView::Finish {
                result: Err(
                    if s.phase->by_id { ImportError::InvalidArtistId } else { ImportError::CantCreateArtistFromArtistName },
                ),
            },
        )),
        s.phase is AwaitingArtwork && e is ArtworkNotSaved ==> import_next(s, e) == Some((
            DropImportView { phase: ImportPhaseView::Finished, ..s },
            ImportActionView::Finish { result: Err(ImportError::CantCreateArtworkFromArtworkName) },
        )),
        s.phase is AwaitingDrop && e is DropNotSaved ==> import_next(s, e) == Some((
            DropImportView { phase: ImportPhaseView::Finished, ..s },
            ImportActionView::Finish { result: Err(ImportError::CantCreateDropFromDropRequest) },
        )),
        s.phase is AwaitingDirectory && e is DirectoryNotCreated ==> import_next(s, e) == Some((
            DropImportView { phase: ImportPhaseView::Finished, ..s },
            ImportActionView::Finish { result: Err(ImportError::CantCreateArtworkDirectoryInWebServer) },
        )),
        s.phase is Copying && e is TrackNotCopied ==> import_next(s, e) == Some((
            DropImportView { phase: ImportPhaseView::Finished, ..s },
            ImportActionView::Finish { result: Err(ImportError::CantCopyTrackFileToArtworkDirectory) },
        )),
{
}

/// Whether an import has its drop saved: it waits for the artwork directory
/// or copies tracks.
pub open spec fn drop_saved_phase(p: ImportPhaseView) -> bool {
    p is AwaitingDirectory || p is Copying
}

/// One step of an import: it finishes `Ok` only when the last of its work
/// (the directory, or a copy) succeeded after the drop was saved; it only gets
/// past the drop save on `DropSaved`; and it only creates a directory or
/// copies a track once the drop is saved.
pub proof fn lemma_import_step_order(s: DropImportView, e: ImportEvent)
    ensures
        import_next(s, e) matches Some(t) ==> {
            &&& t.1 == (ImportActionView::Finish { result: Ok(()) }) ==> drop_saved_phase(s.phase)
                && (e is DirectoryCreated || e is TrackCopied)
            &&& drop_saved_phase(t.0.phase) ==> drop_saved_phase(s.phase) || (s.phase is AwaitingDrop && e is DropSaved)
            &&& (t.1 is CreateDirectory ==> s.phase is AwaitingDrop && e is DropSaved)
            &&& (t.1 is CopyTrack ==> drop_saved_phase(s.phase))
        },
{
}

/// Some event of the sequence says that the drop was saved.
pub open spec fn tells_drop_saved(events: Seq<ImportEvent>) -> bool {
    exists|j: int| 0 <= j < events.len() && #[trigger] events[j] is DropSaved
}

proof fn lemma_ok_needs_drop_saved(s: DropImportView, events: Seq<ImportEvent>)
    requires
        import_run(s, events).1.contains(ImportActionView::Finish { result: Ok(()) }),
    ensures
        drop_saved_phase(s.phase) || tells_drop_saved(events),
    decreases events.len(),
{
    let fin = ImportActionView::Finish { result: Ok(()) };
    if events.len() == 0 {
        assert(import_run(s, events).1 =~= Seq::<ImportActionView>::empty());
    } else {
        let rest = events.drop_first();
        lemma_import_step_order(s, events[0]);
        match import_next(s, events[0]) {
            Some(t) => {
                let r = import_run(t.0, rest);
                assert(import_run(s, events).1 == seq![t.1] + r.1);
                if t.1 != fin {
                    let k = choose|k: int| 0 <= k < (seq![t.1] + r.1).len() && (seq![t.1] + r.1)[k] == fin;
                    assert(r.1[k - 1] == fin);
                    assert(r.1.contains(fin));
                    lemma_ok_needs_drop_saved(t.0, rest);
                    if drop_saved_phase(t.0.phase) {
                        if !drop_saved_phase(s.phase) {
                            assert(events[0] is DropSaved);
                        }
                    } else {
                        let j = choose|j: int| 0 <= j < rest.len() && #[trigger] rest[j] is DropSaved;
                        assert(events[j + 1] is DropSaved);
                    }
                }
            },
            None => {
                assert(import_run(s, events) == import_run(s, rest));
                lemma_ok_needs_drop_saved(s, rest);
                if !drop_saved_phase(s.phase) {
                    let j = choose|j: int| 0 <= j < rest.len() && #[trigger] rest[j] is DropSaved;
                    assert(events[j + 1] is DropSaved);
                }
            },
        }
    }
}

/// An import that finishes `Ok`, whatever the outcomes handed to it, was told
/// that its drop was saved: a drop that is not saved never makes an import
/// succeed.
pub proof fn lemma_ok_import_saved_its_drop(
    import_path: Seq<char>,
    request: DropRequestView,
    web_server_path: Seq<char>,
    events: Seq<ImportEvent>,
)
    requires
        ({
            let (s0, a0) = import_start(import_path, request, web_server_path);
            (seq![a0] + import_run(s0, events).1).contains(ImportActionView::Finish { result: Ok(()) })
        }),
    ensures
        tells_drop_saved(events),
{
    let (s0, a0) = import_start(import_path, request, web_server_path);
    let fin = ImportActionView::Finish { result: Ok(()) };
    let all = seq![a0] + import_run(s0, events).1;
    assert(a0 != fin);
    let k = choose|k: int| 0 <= k < all.len() && all[k] == fin;
    assert(import_run(s0, events).1[k - 1] == fin);
    assert(import_run(s0, events).1.contains(fin));
    lemma_ok_needs_drop_saved(s0, events);
}

/// The paths an import works with: the artwork directory
/// `<web server>/artwork_<artwork id>`, the source `<import path>/<track>`,
/// and the target `<artwork directory>/track_<number>`.
pub proof fn lemma_import_paths(web_server_path: Seq<char>, artwork_id: int, import_path: Seq<char>, track: Seq<char>, dir: Seq<char>, number: nat)
    ensures
        artwork_dir_path(web_server_path, artwork_id) == web_server_path + "/"@ + "artwork_"@ + signed_decimal(artwork_id),
        track_source_path(import_path, track) == import_path + "/"@ + track,
        track_target_path(dir, number) == dir + "/"@ + "track_"@ + decimal(number),
{
}

/// Each successful step asks for the next piece of work with the values it
/// was given: the artwork is saved for the artist found under the request's
/// artwork name; the drop is saved for the saved artwork, under the artist's
/// name, with the artwork's directory; that very directory is then created;
/// once it exists the first track (or, with no track, success) follows; after
/// a copy, the next track (or success) follows.
pub proof fn lemma_import_progress(s: DropImportView, e: ImportEvent)
    ensures
        s.phase is AwaitingArtist && e is ArtistFound ==> import_next(s, e) == Some((
            DropImportView { phase: ImportPhaseView::AwaitingArtwork { artist_name: e->artist_name@ }, ..s },
            ImportActionView::SaveArtwork { artist_id: e->ArtistFound_artist_id, artwork_name: s.request.artwork_name },
        )),
        s.phase is AwaitingArtwork && e is ArtworkSaved ==> import_next(s, e) == Some((
            DropImportView {
                phase: ImportPhaseView::AwaitingDrop {
                    artwork_dir: web_dir(s.web_server_path, e->artwork_id as int),
                },
                ..s
            },
            ImportActionView::SaveDrop {
                artwork_id: e->artwork_id,
                name: s.phase->AwaitingArtwork_artist_name,
                dir: web_dir(s.web_server_path, e->artwork_id as int),
            },
        )),
        s.phase is AwaitingDrop && e is DropSaved ==> import_next(s, e) == Some((
            DropImportView { phase: ImportPhaseView::AwaitingDirectory { artwork_dir: s.phase->AwaitingDrop_artwork_dir }, ..s },
            ImportActionView::CreateDirectory { path: s.phase->AwaitingDrop_artwork_dir },
        )),
        s.phase is AwaitingDirectory && e is DirectoryCreated ==> import_next(s, e) == Some(
            if s.request.tracks.len() > 0 {
                (
                    DropImportView {
                        phase: ImportPhaseView::Copying { artwork_dir: s.phase->AwaitingDirectory_artwork_dir, index: 0 },
                        ..s
                    },
                    ImportActionView::CopyTrack {
                        from: s.import_path + "/"@ + s.request.tracks[0],
                        to: s.phase->AwaitingDirectory_artwork_dir + "/"@ + "track_"@ + seq!['1'],
                    },
                )
            } else {
                (DropImportView { phase: ImportPhaseView::Finished, ..s }, ImportActionView::Finish { result: Ok(()) })
            },
        ),
        s.phase is Copying && e is TrackCopied ==> import_next(s, e) == Some(
            if s.phase->Copying_index + 1 < s.request.tracks.len() {
                (
                    DropImportView {
                        phase: ImportPhaseView::Copying {
                            artwork_dir: s.phase->Copying_artwork_dir,
                            index: s.phase->Copying_index + 1,
                        },
                        ..s
                    },
                    ImportActionView::CopyTrack {
                        from: s.import_path + "/"@ + s.request.tracks[(s.phase->Copying_index + 1) as int],
                        to: s.phase->Copying_artwork_dir + "/"@ + "track_"@ + decimal((s.phase->Copying_index + 2) as nat),
                    },
                )
            } else {
                (DropImportView { phase: ImportPhaseView::Finished, ..s }, ImportActionView::Finish { result: Ok(()) })
            },
        ),
{
    if s.phase is AwaitingDirectory && e is DirectoryCreated && s.request.tracks.len() > 0 {
        assert(decimal(1) =~= seq!['1']);
    }
}

/// `<web server>/artwork_<id>`, written out.
pub open spec fn web_dir(web_server_path: Seq<char>, artwork_id: int) -> Seq<char> {
    web_server_path + "/"@ + "artwork_"@ + signed_decimal(artwork_id)
}

/// How an import begins: a request naming both an artist id and a name, or
/// neither, ends at once with its error; otherwise the artist is looked up by
/// the one it names.
pub proof fn lemma_import_begins(import_path: Seq<char>, request: DropRequestView, web_server_path: Seq<char>)
    ensures
        ({
            let (s, a) = import_start(import_path, request, web_server_path);
            &&& s.import_path == import_path && s.web_server_path == web_server_path && s.request == request
            &&& request.artist_id is Some && request.artist_name is Some ==> s.phase is Finished && a == (
                ImportActionView::Finish { result: Err(ImportError::ArtistIdAndArtistNameAreBothPresent) })
            &&& request.artist_id is None && request.artist_name is None ==> s.phase is Finished && a == (
                ImportActionView::Finish { result: Err(ImportError::NeitherArtistIdNorArtistNamePresent) })
            &&& request.artist_id is Some && request.artist_name is None ==> s.phase == (ImportPhaseView::AwaitingArtist {
                by_id: true,
            }) && a == (ImportActionView::FindArtistById { artist_id: request.artist_id->0 })
            &&& request.artist_id is None && request.artist_name is Some ==> s.phase == (ImportPhaseView::AwaitingArtist {
                by_id: false,
            }) && a == (ImportActionView::FindArtistByName { artist_name: request.artist_name->0 })
        }),
{
}

} // verus!
