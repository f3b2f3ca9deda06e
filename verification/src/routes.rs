//! The decisions of the routes that serve a drop, as state machines: a tag
//! visit (which issues an access token), and a token-protected request for a
//! resource of the drop.  Each machine asks for one lookup, save or upstream
//! fetch at a time; its driver performs it and hands back the outcome.

use vstd::prelude::*;
use crate::access::AppError;
use crate::text::{decimal, lemma_common_prefix, lemma_common_suffix, lemma_decimal_injective};
use crate::links::{
    drop_resource, drop_resource_uri, extract_tag_from_path, parse_token, tag_of_path, token_cookie,
    token_cookie_spec, track_leaf, track_uri, uuid_parse, uuid_text,
};

verus! {

// ---------------------------------------------------------------------------
// Tag visit

/// Outcome of what a tag visit asked for last.
pub enum TagVisitEvent {
    TagFound { tag_id: i32, drop_id: i32 },
    TagNotFound,
    DropFound { dir: String },
    DropNotFound,
    TokenSaved,
    TokenNotSaved,
    Fetched,
    FetchFailed,
}

/// What a tag visit asks for next.
pub enum TagVisitAction {
    /// Look the tag up by name.
    LookupTag { name: String },
    /// Look the tag's drop up.
    FindDrop { drop_id: i32 },
    /// Save the access token for the tag.
    SaveToken { token_id: u128, tag_id: i32 },
    /// Fetch the drop's page from the upstream server.
    Fetch { uri: String },
    /// Answer with the fetched page and set this cookie.
    Forward { cookie: String },
    /// Answer with `error`, counting a bad attempt for the client when asked.
    Reject { error: AppError, count_bad_attempt: bool },
}

pub enum TagVisitActionView {
    LookupTag { name: Seq<char> },
    FindDrop { drop_id: i32 },
    SaveToken { token_id: u128, tag_id: i32 },
    Fetch { uri: Seq<char> },
    Forward { cookie: Seq<char> },
    Reject { error: AppError, count_bad_attempt: bool },
}

impl View for TagVisitAction {
    type V = TagVisitActionView;

    open spec fn view(&self) -> TagVisitActionView {
        match self {
            TagVisitAction::LookupTag { name } => TagVisitActionView::LookupTag { name: name@ },
            TagVisitAction::FindDrop { drop_id } => TagVisitActionView::FindDrop { drop_id: *drop_id },
            TagVisitAction::SaveToken { token_id, tag_id } => TagVisitActionView::SaveToken {
                token_id: *token_id,
                tag_id: *tag_id,
            },
            TagVisitAction::Fetch { uri } => TagVisitActionView::Fetch { uri: uri@ },
            TagVisitAction::Forward { cookie } => TagVisitActionView::Forward { cookie: cookie@ },
            TagVisitAction::Reject { error, count_bad_attempt } => TagVisitActionView::Reject {
                error: *error,
                count_bad_attempt: *count_bad_attempt,
            },
        }
    }
}

pub enum TagVisitPhase {
    AwaitingTag,
    AwaitingDrop { tag_id: i32 },
    AwaitingTokenSave { dir: String },
    AwaitingFetch,
    Done,
}

pub enum TagVisitPhaseView {
    AwaitingTag,
    AwaitingDrop { tag_id: i32 },
    AwaitingTokenSave { dir: Seq<char> },
    AwaitingFetch,
    Done,
}

impl View for TagVisitPhase {
    type V = TagVisitPhaseView;

    open spec fn view(&self) -> TagVisitPhaseView {
        match self {
            TagVisitPhase::AwaitingTag => TagVisitPhaseView::AwaitingTag,
            TagVisitPhase::AwaitingDrop { tag_id } => TagVisitPhaseView::AwaitingDrop { tag_id: *tag_id },
            TagVisitPhase::AwaitingTokenSave { dir } => TagVisitPhaseView::AwaitingTokenSave { dir: dir@ },
            TagVisitPhase::AwaitingFetch => TagVisitPhaseView::AwaitingFetch,
            TagVisitPhase::Done => TagVisitPhaseView::Done,
        }
    }
}

/// A visit through a tag: the upstream server's address, the token to issue,
/// and the phase reached.
pub struct TagVisit {
    redirect_uri: String,
    token_id: u128,
    phase: TagVisitPhase,
}

pub struct TagVisitView {
    pub redirect_uri: Seq<char>,
    pub token_id: u128,
    pub phase: TagVisitPhaseView,
}

impl View for TagVisit {
    type V = TagVisitView;

    closed spec fn view(&self) -> TagVisitView {
        TagVisitView { redirect_uri: self.redirect_uri@, token_id: self.token_id, phase: self.phase@ }
    }
}

pub open spec fn visit_with(s: TagVisitView, phase: TagVisitPhaseView) -> TagVisitView {
    TagVisitView { phase, ..s }
}

pub open spec fn visit_reject(s: TagVisitView, error: AppError, count_bad_attempt: bool) -> (TagVisitView, TagVisitActionView) {
    (visit_with(s, TagVisitPhaseView::Done), TagVisitActionView::Reject { error, count_bad_attempt })
}

/// How a tag visit begins: the tag named by the path is looked up; a path
/// that names none is refused.
pub open spec fn tag_visit_start(redirect_uri: Seq<char>, uri_path: Seq<char>, token_id: u128) -> (TagVisitView, TagVisitActionView) {
    let s = TagVisitView { redirect_uri, token_id, phase: TagVisitPhaseView::AwaitingTag };
    match tag_of_path(uri_path) {
        Some(name) => (s, TagVisitActionView::LookupTag { name }),
        None => visit_reject(s, AppError::TagNotFound, false),
    }
}

/// How a tag visit moves on an event; `None` when the event is not the
/// outcome it waits for.
pub open spec fn tag_visit_next(s: TagVisitView, e: TagVisitEvent) -> Option<(TagVisitView, TagVisitActionView)> {
    match s.phase {
        TagVisitPhaseView::AwaitingTag => match e {
            TagVisitEvent::TagFound { tag_id, drop_id } => Some((
                visit_with(s, TagVisitPhaseView::AwaitingDrop { tag_id }),
                TagVisitActionView::FindDrop { drop_id },
            )),
            TagVisitEvent::TagNotFound => Some(visit_reject(s, AppError::TagNotFound, false)),
            _ => None,
        },
        TagVisitPhaseView::AwaitingDrop { tag_id } => match e {
            TagVisitEvent::DropFound { dir } => Some((
                visit_with(s, TagVisitPhaseView::AwaitingTokenSave { dir: dir@ }),
                TagVisitActionView::SaveToken { token_id: s.token_id, tag_id },
            )),
            TagVisitEvent::DropNotFound => Some(visit_reject(s, AppError::DropNotFound, false)),
            _ => None,
        },
        TagVisitPhaseView::AwaitingTokenSave { dir } => match e {
            TagVisitEvent::TokenSaved => Some((
                visit_with(s, TagVisitPhaseView::AwaitingFetch),
                TagVisitActionView::Fetch { uri: drop_resource_uri(s.redirect_uri, dir, "index.html"@) },
            )),
            TagVisitEvent::TokenNotSaved => Some(visit_reject(s, AppError::TokenSaveError, false)),
            _ => None,
        },
        TagVisitPhaseView::AwaitingFetch => match e {
            TagVisitEvent::Fetched => Some((
                visit_with(s, TagVisitPhaseView::Done),
                TagVisitActionView::Forward { cookie: token_cookie_spec(s.token_id) },
            )),
            TagVisitEvent::FetchFailed => Some(visit_reject(s, AppError::TagNotFound, true)),
            _ => None,
        },
        TagVisitPhaseView::Done => None,
    }
}

/// A fresh random token (`uuid::Uuid::new_v4`, read with `as_u128`).  Nothing
/// is claimed of the value.
#[verifier::external_body]
fn fresh_token_id() -> (r: u128) {
    uuid::Uuid::new_v4().as_u128()
}

impl TagVisit {
    /// Begins a visit through the tag named by `uri_path`, issuing the given
    /// token.
    pub fn start_with_token(redirect_uri: String, uri_path: &str, token_id: u128) -> (r: (TagVisit, TagVisitAction))
        ensures
            (r.0@, r.1@) == tag_visit_start(redirect_uri@, uri_path@, token_id),
    {
        let v = TagVisit { redirect_uri, token_id, phase: TagVisitPhase::AwaitingTag };
        match extract_tag_from_path(uri_path) {
            Some(name) => (v, TagVisitAction::LookupTag { name }),
            None => {
                let v = TagVisit { phase: TagVisitPhase::Done, ..v };
                (v, TagVisitAction::Reject { error: AppError::TagNotFound, count_bad_attempt: false })
            },
        }
    }

    /// Begins a visit through the tag named by `uri_path`, issuing a fresh
    /// random token.
    pub fn start(redirect_uri: String, uri_path: &str) -> (r: (TagVisit, TagVisitAction))
        ensures
            (r.0@, r.1@) == tag_visit_start(redirect_uri@, uri_path@, r.0@.token_id),
    {
        let token_id = fresh_token_id();
        TagVisit::start_with_token(redirect_uri, uri_path, token_id)
    }

    /// The token this visit issues.
    pub fn token_id(&self) -> (r: u128)
        ensures
            r == self@.token_id,
    {
        self.token_id
    }

    /// Moves the visit on the outcome of what it asked for last.
    pub fn step(&mut self, event: TagVisitEvent) -> (action: Option<TagVisitAction>)
        ensures
            match tag_visit_next(old(self)@, event) {
                Some(t) => final(self)@ == t.0 && action is Some && action->0@ == t.1,
                None => final(self)@ == old(self)@ && action is None,
            },
    {
        let mut phase = TagVisitPhase::Done;
        std::mem::swap(&mut phase, &mut self.phase);
        match phase {
            TagVisitPhase::AwaitingTag => match event {
                TagVisitEvent::TagFound { tag_id, drop_id } => {
                    self.phase = TagVisitPhase::AwaitingDrop { tag_id };
                    Some(TagVisitAction::FindDrop { drop_id })
                },
                TagVisitEvent::TagNotFound => {
                    Some(TagVisitAction::Reject { error: AppError::TagNotFound, count_bad_attempt: false })
                },
                _ => {
                    self.phase = TagVisitPhase::AwaitingTag;
                    None
                },
            },
            TagVisitPhase::AwaitingDrop { tag_id } => match event {
                TagVisitEvent::DropFound { dir } => {
                    self.phase = TagVisitPhase::AwaitingTokenSave { dir };
                    Some(TagVisitAction::SaveToken { token_id: self.token_id, tag_id })
                },
                TagVisitEvent::DropNotFound => {
                    Some(TagVisitAction::Reject { error: AppError::DropNotFound, count_bad_attempt: false })
                },
                _ => {
                    self.phase = TagVisitPhase::AwaitingDrop { tag_id };
                    None
                },
            },
            TagVisitPhase::AwaitingTokenSave { dir } => match event {
                TagVisitEvent::TokenSaved => {
                    let uri = drop_resource(self.redirect_uri.as_str(), dir.as_str(), "index.html");
                    self.phase = TagVisitPhase::AwaitingFetch;
                    Some(TagVisitAction::Fetch { uri })
                },
                TagVisitEvent::TokenNotSaved => {
                    Some(TagVisitAction::Reject { error: AppError::TokenSaveError, count_bad_attempt: false })
                },
                _ => {
                    self.phase = TagVisitPhase::AwaitingTokenSave { dir };
                    None
                },
            },
            TagVisitPhase::AwaitingFetch => match event {
                TagVisitEvent::Fetched => {
                    let cookie = token_cookie(self.token_id);
                    Some(TagVisitAction::Forward { cookie })
                },
                TagVisitEvent::FetchFailed => {
                    Some(TagVisitAction::Reject { error: AppError::TagNotFound, count_bad_attempt: true })
                },
                _ => {
                    self.phase = TagVisitPhase::AwaitingFetch;
                    None
                },
            },
            TagVisitPhase::Done => None,
        }
    }
}

// ---------------------------------------------------------------------------
// Token-protected resources of a drop

/// The resource a token-protected request asks for.
pub enum Resource {
    /// The drop's HLS playlist.
    Play,
    /// The playlist of one track.
    Track { track_number: u8 },
    /// Any file of the drop, by its path.
    File { path: String },
    /// The drop's playlist description.
    PlaylistInfo,
}

pub enum ResourceView {
    Play,
    Track { track_number: u8 },
    File { path: Seq<char> },
    PlaylistInfo,
}

impl View for Resource {
    type V = ResourceView;

    open spec fn view(&self) -> ResourceView {
        match self {
            Resource::Play => ResourceView::Play,
            Resource::Track { track_number } => ResourceView::Track { track_number: *track_number },
            Resource::File { path } => ResourceView::File { path: path@ },
            Resource::PlaylistInfo => ResourceView::PlaylistInfo,
        }
    }
}

/// Outcome of what a resource request asked for last.  For the playlist
/// description, `Fetched` means a non-empty description that parses.
pub enum ContentEvent {
    TokenFound { tag_id: i32 },
    TokenNotFound,
    TagFound { tag_name: String, drop_id: i32 },
    TagNotFound,
    DropFound { dir: String },
    DropNotFound,
    Fetched,
    FetchFailed,
}

/// What a resource request asks for next.
pub enum ContentAction {
    LookupToken { token_id: u128 },
    LookupTag { tag_id: i32 },
    FindDrop { drop_id: i32 },
    /// Fetch the resource from the upstream server.
    Fetch { uri: String },
    /// Answer with what was fetched.
    Forward,
    /// Answer with `error`, counting a bad attempt for the client when asked.
    Reject { error: AppError, count_bad_attempt: bool },
}

pub enum ContentActionView {
    LookupToken { token_id: u128 },
    LookupTag { tag_id: i32 },
    FindDrop { drop_id: i32 },
    Fetch { uri: Seq<char> },
    Forward,
    Reject { error: AppError, count_bad_attempt: bool },
}

impl View for ContentAction {
    type V = ContentActionView;

    open spec fn view(&self) -> ContentActionView {
        match self {
            ContentAction::LookupToken { token_id } => ContentActionView::LookupToken { token_id: *token_id },
            ContentAction::LookupTag { tag_id } => ContentActionView::LookupTag { tag_id: *tag_id },
            ContentAction::FindDrop { drop_id } => ContentActionView::FindDrop { drop_id: *drop_id },
            ContentAction::Fetch { uri } => ContentActionView::Fetch { uri: uri@ },
            ContentAction::Forward => ContentActionView::Forward,
            ContentAction::Reject { error, count_bad_attempt } => ContentActionView::Reject {
                error: *error,
                count_bad_attempt: *count_bad_attempt,
            },
        }
    }
}

pub enum ContentPhase {
    AwaitingToken,
    AwaitingTag,
    AwaitingDrop { tag_name: String },
    AwaitingFetch,
    Done,
}

pub enum ContentPhaseView {
    AwaitingToken,
    AwaitingTag,
    AwaitingDrop { tag_name: Seq<char> },
    AwaitingFetch,
    Done,
}

impl View for ContentPhase {
    type V = ContentPhaseView;

    open spec fn view(&self) -> ContentPhaseView {
        match self {
            ContentPhase::AwaitingToken => ContentPhaseView::AwaitingToken,
            ContentPhase::AwaitingTag => ContentPhaseView::AwaitingTag,
            ContentPhase::AwaitingDrop { tag_name } => ContentPhaseView::AwaitingDrop { tag_name: tag_name@ },
            ContentPhase::AwaitingFetch => ContentPhaseView::AwaitingFetch,
            ContentPhase::Done => ContentPhaseView::Done,
        }
    }
}

/// A token-protected request for a resource of a drop.
pub struct ContentRequest {
    redirect_uri: String,
    resource: Resource,
    phase: ContentPhase,
}

pub struct ContentRequestView {
    pub redirect_uri: Seq<char>,
    pub resource: ResourceView,
    pub phase: ContentPhaseView,
}

impl View for ContentRequest {
    type V = ContentRequestView;

    closed spec fn view(&self) -> ContentRequestView {
        ContentRequestView { redirect_uri: self.redirect_uri@, resource: self.resource@, phase: self.phase@ }
    }
}

pub open spec fn content_with(s: ContentRequestView, phase: ContentPhaseView) -> ContentRequestView {
    ContentRequestView { phase, ..s }
}

pub open spec fn content_reject(s: ContentRequestView, error: AppError, count_bad_attempt: bool) -> (ContentRequestView, ContentActionView) {
    (content_with(s, ContentPhaseView::Done), ContentActionView::Reject { error, count_bad_attempt })
}

/// Where the resource lies upstream, for a drop in `dir` reached through the
/// tag `tag_name`.
pub open spec fn resource_uri(redirect_uri: Seq<char>, resource: ResourceView, tag_name: Seq<char>, dir: Seq<char>) -> Seq<char> {
    match resource {
        ResourceView::Play => drop_resource_uri(redirect_uri, dir, "playlist.m3u8"@),
        ResourceView::Track { track_number } => drop_resource_uri(redirect_uri, dir, track_leaf(tag_name, track_number)),
        ResourceView::File { path } => drop_resource_uri(redirect_uri, dir, path),
        ResourceView::PlaylistInfo => drop_resource_uri(redirect_uri, dir, "playlist.toml"@),
    }
}

/// The answer to a failed upstream fetch.
pub open spec fn fetch_failure(resource: ResourceView) -> AppError {
    match resource {
        ResourceView::PlaylistInfo => AppError::PlaylistNotFound,
        _ => AppError::TagNotFound,
    }
}

/// How a resource request begins: a token header that holds a UUID has that
/// token looked up; a missing or malformed one is answered `Unauthorized`.
pub open spec fn content_start(redirect_uri: Seq<char>, resource: ResourceView, token_header: Option<Seq<char>>) -> (ContentRequestView, ContentActionView) {
    let s = ContentRequestView { redirect_uri, resource, phase: ContentPhaseView::AwaitingToken };
    match token_header {
        Some(h) => match uuid_parse(h) {
            Some(id) => (s, ContentActionView::LookupToken { token_id: id }),
            None => content_reject(s, AppError::Unauthorized, false),
        },
        None => content_reject(s, AppError::Unauthorized, false),
    }
}

/// How a resource request moves on an event; `None` when the event is not
/// the outcome it waits for.
pub open spec fn content_next(s: ContentRequestView, e: ContentEvent) -> Option<(ContentRequestView, ContentActionView)> {
    match s.phase {
        ContentPhaseView::AwaitingToken => match e {
            ContentEvent::TokenFound { tag_id } => Some((
                content_with(s, ContentPhaseView::AwaitingTag),
                ContentActionView::LookupTag { tag_id },
            )),
            ContentEvent::TokenNotFound => Some(content_reject(s, AppError::Unauthorized, false)),
            _ => None,
        },
        ContentPhaseView::AwaitingTag => match e {
            ContentEvent::TagFound { tag_name, drop_id } => Some((
                content_with(s, ContentPhaseView::AwaitingDrop { tag_name: tag_name@ }),
                ContentActionView::FindDrop { drop_id },
            )),
            ContentEvent::TagNotFound => Some(content_reject(s, AppError::Unauthorized, false)),
            _ => None,
        },
        ContentPhaseView::AwaitingDrop { tag_name } => match e {
            ContentEvent::DropFound { dir } => Some((
                content_with(s, ContentPhaseView::AwaitingFetch),
                ContentActionView::Fetch { uri: resource_uri(s.redirect_uri, s.resource, tag_name, dir@) },
            )),
            ContentEvent::DropNotFound => Some(content_reject(s, AppError::Unauthorized, false)),
            _ => None,
        },
        ContentPhaseView::AwaitingFetch => match e {
            ContentEvent::Fetched => Some((content_with(s, ContentPhaseView::Done), ContentActionView::Forward)),
            ContentEvent::FetchFailed => Some(content_reject(s, fetch_failure(s.resource), true)),
            _ => None,
        },
        ContentPhaseView::Done => None,
    }
}

pub open spec fn opt_str_view(o: Option<&str>) -> Option<Seq<char>> {
    match o {
        Some(s) => Some(s@),
        None => None,
    }
}

impl ContentRequest {
    /// Begins a request for `resource`, presenting `token_header` (the token
    /// header's text, if the request has a readable one).
    pub fn start(redirect_uri: String, resource: Resource, token_header: Option<&str>) -> (r: (ContentRequest, ContentAction))
        ensures
            (r.0@, r.1@) == content_start(redirect_uri@, resource@, opt_str_view(token_header)),
    {
        let c = ContentRequest { redirect_uri, resource, phase: ContentPhase::AwaitingToken };
        let id = match token_header {
            Some(h) => parse_token(h),
            None => None,
        };
        match id {
            Some(token_id) => (c, ContentAction::LookupToken { token_id }),
            None => {
                let c = ContentRequest { phase: ContentPhase::Done, ..c };
                (c, ContentAction::Reject { error: AppError::Unauthorized, count_bad_attempt: false })
            },
        }
    }

    fn fetch_uri(&self, tag_name: &String, dir: &String) -> (r: String)
        ensures
            r@ == resource_uri(self@.redirect_uri, self@.resource, tag_name@, dir@),
    {
        match &self.resource {
            Resource::Play => drop_resource(self.redirect_uri.as_str(), dir.as_str(), "playlist.m3u8"),
            Resource::Track { track_number } => track_uri(self.redirect_uri.as_str(), dir.as_str(), tag_name.as_str(), *track_number),
            Resource::File { path } => drop_resource(self.redirect_uri.as_str(), dir.as_str(), path.as_str()),
            Resource::PlaylistInfo => drop_resource(self.redirect_uri.as_str(), dir.as_str(), "playlist.toml"),
        }
    }

    /// Moves the request on the outcome of what it asked for last.
    pub fn step(&mut self, event: ContentEvent) -> (action: Option<ContentAction>)
        ensures
            match content_next(old(self)@, event) {
                Some(t) => final(self)@ == t.0 && action is Some && action->0@ == t.1,
                None => final(self)@ == old(self)@ && action is None,
            },
    {
        let mut phase = ContentPhase::Done;
        std::mem::swap(&mut phase, &mut self.phase);
        match phase {
            ContentPhase::AwaitingToken => match event {
                ContentEvent::TokenFound { tag_id } => {
                    self.phase = ContentPhase::AwaitingTag;
                    Some(ContentAction::LookupTag { tag_id })
                },
                ContentEvent::TokenNotFound => {
                    Some(ContentAction::Reject { error: AppError::Unauthorized, count_bad_attempt: false })
                },
                _ => {
                    self.phase = ContentPhase::AwaitingToken;
                    None
                },
            },
            ContentPhase::AwaitingTag => match event {
                ContentEvent::TagFound { tag_name, drop_id } => {
                    self.phase = ContentPhase::AwaitingDrop { tag_name };
                    Some(ContentAction::FindDrop { drop_id })
                },
                ContentEvent::TagNotFound => {
                    Some(ContentAction::Reject { error: AppError::Unauthorized, count_bad_attempt: false })
                },
                _ => {
                    self.phase = ContentPhase::AwaitingTag;
                    None
                },
            },
            ContentPhase::AwaitingDrop { tag_name } => match event {
                ContentEvent::DropFound { dir } => {
                    let uri = self.fetch_uri(&tag_name, &dir);
                    self.phase = ContentPhase::AwaitingFetch;
                    Some(ContentAction::Fetch { uri })
                },
                ContentEvent::DropNotFound => {
                    Some(ContentAction::Reject { error: AppError::Unauthorized, count_bad_attempt: false })
                },
                _ => {
                    self.phase = ContentPhase::AwaitingDrop { tag_name };
                    None
                },
            },
            ContentPhase::AwaitingFetch => match event {
                ContentEvent::Fetched => Some(ContentAction::Forward),
                ContentEvent::FetchFailed => {
                    let error = match &self.resource {
                        Resource::PlaylistInfo => AppError::PlaylistNotFound,
                        _ => AppError::TagNotFound,
                    };
                    Some(ContentAction::Reject { error, count_bad_attempt: true })
                },
                _ => {
                    self.phase = ContentPhase::AwaitingFetch;
                    None
                },
            },
            ContentPhase::Done => None,
        }
    }
}

/// A visit through a path naming a known tag, whose drop is found, saves the
/// issued token for that very tag, fetches the drop's page
/// `<redirect uri>/tag/<drop directory>/index.html`, and, once fetched, hands
/// the same token to the client in the cookie `dop_token=<token>`.
pub proof fn lemma_tag_visit_issues_token(
    redirect_uri: Seq<char>,
    uri_path: Seq<char>,
    token_id: u128,
    tag_id: i32,
    drop_id: i32,
    dir: String,
)
    requires
        tag_of_path(uri_path) is Some,
    ensures
        ({
            let (s0, a0) = tag_visit_start(redirect_uri, uri_path, token_id);
            let (s1, a1) = tag_visit_next(s0, TagVisitEvent::TagFound { tag_id, drop_id })->0;
            let (s2, a2) = tag_visit_next(s1, TagVisitEvent::DropFound { dir })->0;
            let (s3, a3) = tag_visit_next(s2, TagVisitEvent::TokenSaved)->0;
            let (s4, a4) = tag_visit_next(s3, TagVisitEvent::Fetched)->0;
            &&& a0 == TagVisitActionView::LookupTag { name: tag_of_path(uri_path)->0 }
            &&& a1 == TagVisitActionView::FindDrop { drop_id }
            &&& a2 == TagVisitActionView::SaveToken { token_id, tag_id }
            &&& a3 == TagVisitActionView::Fetch { uri: drop_resource_uri(redirect_uri, dir@, "index.html"@) }
            &&& a4 == TagVisitActionView::Forward { cookie: token_cookie_spec(token_id) }
            &&& s4.phase is Done
        }),
{
}

/// A request presenting the text of a token that is found, whose tag and
/// drop are found, fetches the requested resource of that drop
/// (`<redirect uri>/tag/<drop directory>/<resource>`) and forwards it.
pub proof fn lemma_content_request_reaches_drop(
    redirect_uri: Seq<char>,
    resource: ResourceView,
    token_header: Seq<char>,
    tag_id: i32,
    tag_name: String,
    drop_id: i32,
    dir: String,
)
    requires
        uuid_parse(token_header) is Some,
    ensures
        ({
            let (s0, a0) = content_start(redirect_uri, resource, Some(token_header));
            let (s1, a1) = content_next(s0, ContentEvent::TokenFound { tag_id })->0;
            let (s2, a2) = content_next(s1, ContentEvent::TagFound { tag_name, drop_id })->0;
            let (s3, a3) = content_next(s2, ContentEvent::DropFound { dir })->0;
            let (s4, a4) = content_next(s3, ContentEvent::Fetched)->0;
            &&& a0 == ContentActionView::LookupToken { token_id: uuid_parse(token_header)->0 }
            &&& a1 == ContentActionView::LookupTag { tag_id }
            &&& a2 == ContentActionView::FindDrop { drop_id }
            &&& a3 == ContentActionView::Fetch { uri: resource_uri(redirect_uri, resource, tag_name@, dir@) }
            &&& a4 == ContentActionView::Forward
            &&& s4.phase is Done
        }),
{
}

/// Every failed upstream fetch, on any route, counts a bad attempt against
/// the client.
pub proof fn lemma_failed_fetch_counts(s: ContentRequestView, v: TagVisitView)
    requires
        s.phase is AwaitingFetch,
        v.phase is AwaitingFetch,
    ensures
        (content_next(s, ContentEvent::FetchFailed)->0).1 == (ContentActionView::Reject {
            error: fetch_failure(s.resource),
            count_bad_attempt: true,
        }),
        (tag_visit_next(v, TagVisitEvent::FetchFailed)->0).1 == (TagVisitActionView::Reject {
            error: AppError::TagNotFound,
            count_bad_attempt: true,
        }),
{
}

/// Where each resource is fetched upstream: `<redirect>/tag/<dir>/` followed
/// by `playlist.m3u8`, `<tag>_<track number in decimal>.m3u8`, the file's
/// path, or `playlist.toml`.
pub proof fn lemma_resource_uris(redirect_uri: Seq<char>, tag_name: Seq<char>, dir: Seq<char>, n: u8, path: Seq<char>)
    ensures
        resource_uri(redirect_uri, ResourceView::Play, tag_name, dir) == redirect_uri + "/tag/"@ + dir + "/"@
            + "playlist.m3u8"@,
        resource_uri(redirect_uri, ResourceView::Track { track_number: n }, tag_name, dir) == redirect_uri + "/tag/"@
            + dir + "/"@ + tag_name + "_"@ + decimal(n as nat) + ".m3u8"@,
        resource_uri(redirect_uri, ResourceView::File { path }, tag_name, dir) == redirect_uri + "/tag/"@ + dir + "/"@
            + path,
        resource_uri(redirect_uri, ResourceView::PlaylistInfo, tag_name, dir) == redirect_uri + "/tag/"@ + dir + "/"@
            + "playlist.toml"@,
{
    assert(resource_uri(redirect_uri, ResourceView::Track { track_number: n }, tag_name, dir) =~= redirect_uri
        + "/tag/"@ + dir + "/"@ + tag_name + "_"@ + decimal(n as nat) + ".m3u8"@);
}

/// Different track numbers fetch different playlists: the track requested
/// is the one fetched.
pub proof fn lemma_track_uris_distinct(redirect_uri: Seq<char>, tag_name: Seq<char>, dir: Seq<char>, m: u8, n: u8)
    requires
        m != n,
    ensures
        resource_uri(redirect_uri, ResourceView::Track { track_number: m }, tag_name, dir) != resource_uri(
            redirect_uri,
            ResourceView::Track { track_number: n },
            tag_name,
            dir,
        ),
{
    lemma_resource_uris(redirect_uri, tag_name, dir, m, Seq::empty());
    lemma_resource_uris(redirect_uri, tag_name, dir, n, Seq::empty());
    let p = redirect_uri + "/tag/"@ + dir + "/"@ + tag_name + "_"@;
    let um = resource_uri(redirect_uri, ResourceView::Track { track_number: m }, tag_name, dir);
    let un = resource_uri(redirect_uri, ResourceView::Track { track_number: n }, tag_name, dir);
    if um == un {
        assert(um == p + decimal(m as nat) + ".m3u8"@);
        assert(un == p + decimal(n as nat) + ".m3u8"@);
        lemma_common_suffix(p + decimal(m as nat), p + decimal(n as nat), ".m3u8"@);
        lemma_common_prefix(p, decimal(m as nat), decimal(n as nat));
        lemma_decimal_injective(m as nat, n as nat);
    }
}

/// A tag visit refuses at the first failure, with the answer of that
/// failure: an unknown tag (`TagNotFound`), a tag without drop
/// (`DropNotFound`), a token that cannot be saved (`TokenSaveError`), none of
/// them counted against the client; a failed upstream fetch (`TagNotFound`,
/// counted). After a refusal, nothing more is asked.
pub proof fn lemma_tag_visit_refusals(s: TagVisitView, e: TagVisitEvent)
    ensures
        s.phase is AwaitingTag && e is TagNotFound ==> tag_visit_next(s, e) == Some((
            TagVisitView { phase: TagVisitPhaseView::Done, ..s },
            TagVisitActionView::Reject { error: AppError::TagNotFound, count_bad_attempt: false },
        )),
        s.phase is AwaitingDrop && e is DropNotFound ==> tag_visit_next(s, e) == Some((
            TagVisitView { phase: TagVisitPhaseView::Done, ..s },
            TagVisitActionView::Reject { error: AppError::DropNotFound, count_bad_attempt: false },
        )),
        s.phase is AwaitingTokenSave && e is TokenNotSaved ==> tag_visit_next(s, e) == Some((
            TagVisitView { phase: TagVisitPhaseView::Done, ..s },
            TagVisitActionView::Reject { error: AppError::TokenSaveError, count_bad_attempt: false },
        )),
        s.phase is AwaitingFetch && e is FetchFailed ==> tag_visit_next(s, e) == Some((
            TagVisitView { phase: TagVisitPhaseView::Done, ..s },
            TagVisitActionView::Reject { error: AppError::TagNotFound, count_bad_attempt: true },
        )),
        s.phase is Done ==> tag_visit_next(s, e) is None,
{
}

/// A tag visit saves a token only for the tag it found, with the token it
/// issues, and hands out in the cookie the very token it saved.
pub proof fn lemma_tag_visit_token(s: TagVisitView, e: TagVisitEvent)
    ensures
        tag_visit_next(s, e) matches Some(t) ==> (t.1 is SaveToken ==> s.phase is AwaitingDrop && t.1
            == (TagVisitActionView::SaveToken { token_id: s.token_id, tag_id: s.phase->AwaitingDrop_tag_id })),
        tag_visit_next(s, e) matches Some(t) ==> (t.1 is Forward ==> s.phase is AwaitingFetch && e is Fetched && t.1
            == (TagVisitActionView::Forward { cookie: "dop_token"@ + "="@ + uuid_text(s.token_id) })),
        tag_visit_next(s, e) matches Some(t) ==> t.0.token_id == s.token_id && t.0.redirect_uri == s.redirect_uri,
        s.phase is AwaitingTag && e is TagFound ==> tag_visit_next(s, e) == Some((
            TagVisitView { phase: TagVisitPhaseView::AwaitingDrop { tag_id: e->TagFound_tag_id }, ..s },
            TagVisitActionView::FindDrop { drop_id: e->TagFound_drop_id },
        )),
        s.phase is AwaitingTokenSave && e is TokenSaved ==> tag_visit_next(s, e) == Some((
            TagVisitView { phase: TagVisitPhaseView::AwaitingFetch, ..s },
            TagVisitActionView::Fetch {
                uri: s.redirect_uri + "/tag/"@ + s.phase->AwaitingTokenSave_dir + "/"@ + "index.html"@,
            },
        )),
{
}

/// A resource request refuses at the first failure: an unknown token, an
/// unknown tag, or a tag without drop is answered `Unauthorized` (not
/// counted); a failed upstream fetch is answered `PlaylistNotFound` for the
/// playlist description and `TagNotFound` otherwise, counted against the
/// client.
pub proof fn lemma_content_refusals(s: ContentRequestView, e: ContentEvent)
    ensures
        s.phase is AwaitingToken && e is TokenNotFound ==> content_next(s, e) == Some((
            ContentRequestView { phase: ContentPhaseView::Done, ..s },
            ContentActionView::Reject { error: AppError::Unauthorized, count_bad_attempt: false },
        )),
        s.phase is AwaitingTag && e is TagNotFound ==> content_next(s, e) == Some((
            ContentRequestView { phase: ContentPhaseView::Done, ..s },
            ContentActionView::Reject { error: AppError::Unauthorized, count_bad_attempt: false },
        )),
        s.phase is AwaitingDrop && e is DropNotFound ==> content_next(s, e) == Some((
            ContentRequestView { phase: ContentPhaseView::Done, ..s },
            ContentActionView::Reject { error: AppError::Unauthorized, count_bad_attempt: false },
        )),
        s.phase is AwaitingFetch && e is FetchFailed ==> content_next(s, e) == Some((
            ContentRequestView { phase: ContentPhaseView::Done, ..s },
            ContentActionView::Reject {
                error: if s.resource is PlaylistInfo { AppError::PlaylistNotFound } else { AppError::TagNotFound },
                count_bad_attempt: true,
            },
        )),
        s.phase is Done ==> content_next(s, e) is None,
        content_next(s, e) matches Some(t) ==> (t.1 is Fetch ==> s.phase is AwaitingDrop && e is DropFound),
        content_next(s, e) matches Some(t) ==> (t.1 is Forward ==> s.phase is AwaitingFetch && e is Fetched),
        content_next(s, e) matches Some(t) ==> t.0.resource == s.resource && t.0.redirect_uri == s.redirect_uri,
{
}

/// A request is looked up with the token its header reads as, and without a
/// readable token it is refused at once.
pub proof fn lemma_content_begins(redirect_uri: Seq<char>, resource: ResourceView, token_header: Option<Seq<char>>)
    ensures
        ({
            let (s, a) = content_start(redirect_uri, resource, token_header);
            &&& s.redirect_uri == redirect_uri && s.resource == resource
            &&& (token_header is Some && uuid_parse(token_header->0) is Some) ==> a == (ContentActionView::LookupToken {
                token_id: uuid_parse(token_header->0)->0,
            }) && s.phase is AwaitingToken
            &&& !(token_header is Some && uuid_parse(token_header->0) is Some) ==> a == (ContentActionView::Reject {
                error: AppError::Unauthorized,
                count_bad_attempt: false,
            }) && s.phase is Done
        }),
{
}

} // verus!
