//! Access decisions: the errors the proxy answers with, the ban on client
//! addresses with too many bad attempts, and the two route guards (one for
//! tag visits, one for token-protected resources).

use vstd::prelude::*;
use crate::links::{extract_tag_from_path, parse_token, tag_of_path, uuid_parse, uuid_text};
use crate::text::{starts_with, has_prefix};

verus! {

/// Errors the routes answer with.
#[derive(Debug, Clone, Copy, PartialEq, Eq, Structural)]
pub enum AppError {
    TagNotFound,
    Unauthorized,
    InternalError,
    ResourceNotFound,
    PlaylistNotFound,
    TokenSaveError,
    DropNotFound,
}

/// HTTP status that answers each error.
pub open spec fn app_error_status(e: AppError) -> u16 {
    match e {
        AppError::TagNotFound => 500,
        AppError::Unauthorized => 401,
        AppError::InternalError => 500,
        AppError::ResourceNotFound => 404,
        AppError::PlaylistNotFound => 404,
        AppError::TokenSaveError => 500,
        AppError::DropNotFound => 404,
    }
}

impl AppError {
    /// The HTTP status of the response to this error.
    pub fn status_code(&self) -> (r: u16)
        ensures
            r == app_error_status(*self),
    {
        match self {
            AppError::TagNotFound => 500,
            AppError::Unauthorized => 401,
            AppError::InternalError => 500,
            AppError::ResourceNotFound => 404,
            AppError::PlaylistNotFound => 404,
            AppError::TokenSaveError => 500,
            AppError::DropNotFound => 404,
        }
    }
}

/// A client address is let through while its recorded bad attempts stay below
/// the maximum; an address with no record (or whose record cannot be read) is
/// let through.
pub open spec fn ip_allowed(bad_attempts: Option<u32>, max_attempts: u8) -> bool {
    match bad_attempts {
        Some(n) => n < max_attempts,
        None => true,
    }
}

/// Whether a client address may go on, given its recorded bad attempts.
pub fn check_ip(bad_attempts: Option<u32>, max_attempts: u8) -> (r: bool)
    ensures
        r == ip_allowed(bad_attempts, max_attempts),
{
    match bad_attempts {
        Some(n) => n < max_attempts as u32,
        None => true,
    }
}

/// The bad-attempt count recorded after one more bad attempt.
pub fn next_bad_attempts(bad_attempts: u32) -> (r: u32)
    requires
        bad_attempts < u32::MAX,
    ensures
        r == bad_attempts + 1,
{
    bad_attempts + 1
}

/// Drop imports may only be started from the local host: the caller's address
/// text must begin with `127`.
pub fn drop_import_caller_allowed(ip_text: &str) -> (r: bool)
    ensures
        r == has_prefix(ip_text@, "127"@),
{
    starts_with(ip_text, "127")
}

/// What a route guard decides.
pub enum GuardDecision {
    /// Look the tag up by name, then call [`tag_guard_on_lookup`].
    LookupTag { tag: String },
    /// Look the token up, then call [`token_guard_on_lookup`].
    LookupToken { token_id: u128 },
    /// Let the request through; when `reset_bad_attempts`, record zero bad
    /// attempts for the client address first.
    Pass { reset_bad_attempts: bool },
    /// Answer with `error`; when `count_bad_attempt`, record one more bad
    /// attempt for the client address.
    Reject { error: AppError, count_bad_attempt: bool },
}

/// Guard of the tag route, before any lookup: a banned address is refused
/// (and the attempt counted); a path that names no tag is refused; otherwise
/// the tag is looked up.
pub fn tag_guard_start(bad_attempts: Option<u32>, max_attempts: u8, uri_path: &str) -> (r: GuardDecision)
    ensures
        !ip_allowed(bad_attempts, max_attempts)
            ==> r == (GuardDecision::Reject { error: AppError::Unauthorized, count_bad_attempt: true }),
        ip_allowed(bad_attempts, max_attempts) && tag_of_path(uri_path@) is None
            ==> r == (GuardDecision::Reject { error: AppError::TagNotFound, count_bad_attempt: false }),
        ip_allowed(bad_attempts, max_attempts) && tag_of_path(uri_path@) is Some
            ==> (r matches GuardDecision::LookupTag { tag } && tag@ == tag_of_path(uri_path@)->0),
{
    if !check_ip(bad_attempts, max_attempts) {
        return GuardDecision::Reject { error: AppError::Unauthorized, count_bad_attempt: true };
    }
    match extract_tag_from_path(uri_path) {
        Some(tag) => GuardDecision::LookupTag { tag },
        None => GuardDecision::Reject { error: AppError::TagNotFound, count_bad_attempt: false },
    }
}

/// Guard of the tag route, once the tag has been looked up: a known tag lets
/// the visit through and clears the address's bad attempts; an unknown one is
/// refused and counted.
pub fn tag_guard_on_lookup(tag_found: bool) -> (r: GuardDecision)
    ensures
        tag_found ==> r == (GuardDecision::Pass { reset_bad_attempts: true }),
        !tag_found ==> r == (GuardDecision::Reject { error: AppError::TagNotFound, count_bad_attempt: true }),
{
    if tag_found {
        GuardDecision::Pass { reset_bad_attempts: true }
    } else {
        GuardDecision::Reject { error: AppError::TagNotFound, count_bad_attempt: true }
    }
}

/// Guard of the token-protected routes, before any lookup: a banned address,
/// a missing or unreadable token header, or a header that is no UUID, is
/// refused and counted; otherwise the token is looked up.  A header holding
/// the text of a token is looked up as that very token.
pub fn token_guard_start(bad_attempts: Option<u32>, max_attempts: u8, token_header: Option<&str>) -> (r: GuardDecision)
    ensures
        !ip_allowed(bad_attempts, max_attempts)
            ==> r == (GuardDecision::Reject { error: AppError::Unauthorized, count_bad_attempt: true }),
        ip_allowed(bad_attempts, max_attempts) ==> (match token_header {
            Some(h) => match uuid_parse(h@) {
                Some(id) => r == (GuardDecision::LookupToken { token_id: id }),
                None => r == (GuardDecision::Reject { error: AppError::Unauthorized, count_bad_attempt: true }),
            },
            None => r == (GuardDecision::Reject { error: AppError::Unauthorized, count_bad_attempt: true }),
        }),
        forall|id: u128|
            ip_allowed(bad_attempts, max_attempts) && token_header is Some && token_header->0@ == uuid_text(id)
                ==> r == (GuardDecision::LookupToken { token_id: id }),
{
    if !check_ip(bad_attempts, max_attempts) {
        return GuardDecision::Reject { error: AppError::Unauthorized, count_bad_attempt: true };
    }
    match token_header {
        Some(h) => match parse_token(h) {
            Some(id) => GuardDecision::LookupToken { token_id: id },
            None => GuardDecision::Reject { error: AppError::Unauthorized, count_bad_attempt: true },
        },
        None => GuardDecision::Reject { error: AppError::Unauthorized, count_bad_attempt: true },
    }
}

/// Guard of the token-protected routes, once the token has been looked up:
/// a known token lets the request through; an unknown one is refused and
/// counted.
pub fn token_guard_on_lookup(token_found: bool) -> (r: GuardDecision)
    ensures
        token_found ==> r == (GuardDecision::Pass { reset_bad_attempts: false }),
        !token_found ==> r == (GuardDecision::Reject { error: AppError::Unauthorized, count_bad_attempt: true }),
{
    if token_found {
        GuardDecision::Pass { reset_bad_attempts: false }
    } else {
        GuardDecision::Reject { error: AppError::Unauthorized, count_bad_attempt: true }
    }
}

/// The ban is a threshold on the recorded bad attempts: an address below
/// the maximum is let through, one at or above it is refused, and more bad
/// attempts never lift a ban.
pub proof fn lemma_ban_threshold(n: u32, k: u32, max_attempts: u8)
    ensures
        n < max_attempts as u32 ==> ip_allowed(Some(n), max_attempts),
        n >= max_attempts as u32 ==> !ip_allowed(Some(n), max_attempts),
        n <= k && !ip_allowed(Some(n), max_attempts) ==> !ip_allowed(Some(k), max_attempts),
        ip_allowed(None, max_attempts),
{
}

/// Refusals for want of a valid token answer 401; the resources that do
/// not exist answer 404; failures of the proxy itself answer 500.
pub proof fn lemma_error_statuses()
    ensures
        app_error_status(AppError::Unauthorized) == 401,
        app_error_status(AppError::ResourceNotFound) == 404,
        app_error_status(AppError::PlaylistNotFound) == 404,
        app_error_status(AppError::DropNotFound) == 404,
        app_error_status(AppError::TagNotFound) == 500,
        app_error_status(AppError::InternalError) == 500,
        app_error_status(AppError::TokenSaveError) == 500,
{
}

} // verus!
