use drop_reverse_proxy::access::{
    check_ip, drop_import_caller_allowed, next_bad_attempts, tag_guard_on_lookup, tag_guard_start, token_guard_on_lookup,
    token_guard_start, AppError, GuardDecision,
};
use drop_reverse_proxy::links::token_text;
use drop_reverse_proxy::routes::{
    ContentAction, ContentEvent, ContentRequest, Resource, TagVisit, TagVisitAction, TagVisitEvent,
};

const ID: u128 = 0x550e8400_e29b_41d4_a716_446655440000;

#[test]
fn error_statuses() {
    assert_eq!(AppError::TagNotFound.status_code(), 500);
    assert_eq!(AppError::Unauthorized.status_code(), 401);
    assert_eq!(AppError::InternalError.status_code(), 500);
    assert_eq!(AppError::ResourceNotFound.status_code(), 404);
    assert_eq!(AppError::PlaylistNotFound.status_code(), 404);
    assert_eq!(AppError::TokenSaveError.status_code(), 500);
    assert_eq!(AppError::DropNotFound.status_code(), 404);
}

#[test]
fn ip_ban_after_max_attempts() {
    assert!(check_ip(None, 3));
    assert!(check_ip(Some(0), 3));
    assert!(check_ip(Some(2), 3));
    assert!(!check_ip(Some(3), 3));
    assert!(!check_ip(Some(40), 3));
    assert!(!check_ip(Some(0), 0));
    assert_eq!(next_bad_attempts(0), 1);
    assert_eq!(next_bad_attempts(41), 42);
}

#[test]
fn drop_import_only_from_localhost() {
    assert!(drop_import_caller_allowed("127.0.0.1"));
    assert!(drop_import_caller_allowed("127.1.2.3"));
    assert!(!drop_import_caller_allowed("192.168.1.127"));
    assert!(!drop_import_caller_allowed("::1"));
}

#[test]
fn tag_guard_decisions() {
    assert!(matches!(
        tag_guard_start(Some(5), 5, "/tag/abc"),
        GuardDecision::Reject { error: AppError::Unauthorized, count_bad_attempt: true }
    ));
    assert!(matches!(
        tag_guard_start(None, 5, "/"),
        GuardDecision::Reject { error: AppError::TagNotFound, count_bad_attempt: false }
    ));
    match tag_guard_start(Some(1), 5, "/tag/abc/") {
        GuardDecision::LookupTag { tag } => assert_eq!(tag, "abc"),
        _ => panic!("the tag is looked up"),
    }
    assert!(matches!(tag_guard_on_lookup(true), GuardDecision::Pass { reset_bad_attempts: true }));
    assert!(matches!(
        tag_guard_on_lookup(false),
        GuardDecision::Reject { error: AppError::TagNotFound, count_bad_attempt: true }
    ));
}

#[test]
fn token_guard_decisions() {
    let text = token_text(ID);
    assert!(matches!(
        token_guard_start(Some(9), 3, Some(text.as_str())),
        GuardDecision::Reject { error: AppError::Unauthorized, count_bad_attempt: true }
    ));
    assert!(matches!(token_guard_start(None, 3, Some(text.as_str())), GuardDecision::LookupToken { token_id: ID }));
    assert!(matches!(
        token_guard_start(None, 3, Some("garbage")),
        GuardDecision::Reject { error: AppError::Unauthorized, count_bad_attempt: true }
    ));
    assert!(matches!(
        token_guard_start(None, 3, None),
        GuardDecision::Reject { error: AppError::Unauthorized, count_bad_attempt: true }
    ));
    assert!(matches!(token_guard_on_lookup(true), GuardDecision::Pass { reset_bad_attempts: false }));
    assert!(matches!(
        token_guard_on_lookup(false),
        GuardDecision::Reject { error: AppError::Unauthorized, count_bad_attempt: true }
    ));
}

#[test]
fn tag_visit_issues_token_in_cookie() {
    let (mut visit, first) = TagVisit::start_with_token("http://up".to_string(), "/tag/jdznjevb", ID);
    match first {
        TagVisitAction::LookupTag { name } => assert_eq!(name, "jdznjevb"),
        _ => panic!("the tag is looked up first"),
    }
    assert!(visit.step(TagVisitEvent::Fetched).is_none());
    assert!(matches!(visit.step(TagVisitEvent::TagFound { tag_id: 4, drop_id: 9 }), Some(TagVisitAction::FindDrop { drop_id: 9 })));
    assert!(matches!(
        visit.step(TagVisitEvent::DropFound { dir: "artwork_2".to_string() }),
        Some(TagVisitAction::SaveToken { token_id: ID, tag_id: 4 })
    ));
    match visit.step(TagVisitEvent::TokenSaved) {
        Some(TagVisitAction::Fetch { uri }) => assert_eq!(uri, "http://up/tag/artwork_2/index.html"),
        _ => panic!("the page is fetched"),
    }
    match visit.step(TagVisitEvent::Fetched) {
        Some(TagVisitAction::Forward { cookie }) => {
            assert_eq!(cookie, "dop_token=550e8400-e29b-41d4-a716-446655440000")
        },
        _ => panic!("the page is forwarded"),
    }
    assert!(visit.step(TagVisitEvent::Fetched).is_none());
}

#[test]
fn tag_visit_failures() {
    let (_, first) = TagVisit::start_with_token("http://up".to_string(), "/", ID);
    assert!(matches!(first, TagVisitAction::Reject { error: AppError::TagNotFound, count_bad_attempt: false }));

    let (mut v, _) = TagVisit::start_with_token("u".to_string(), "/tag/x", ID);
    assert!(matches!(
        v.step(TagVisitEvent::TagNotFound),
        Some(TagVisitAction::Reject { error: AppError::TagNotFound, count_bad_attempt: false })
    ));

    let (mut v, _) = TagVisit::start_with_token("u".to_string(), "/tag/x", ID);
    v.step(TagVisitEvent::TagFound { tag_id: 1, drop_id: 1 });
    assert!(matches!(
        v.step(TagVisitEvent::DropNotFound),
        Some(TagVisitAction::Reject { error: AppError::DropNotFound, count_bad_attempt: false })
    ));

    let (mut v, _) = TagVisit::start_with_token("u".to_string(), "/tag/x", ID);
    v.step(TagVisitEvent::TagFound { tag_id: 1, drop_id: 1 });
    v.step(TagVisitEvent::DropFound { dir: "d".to_string() });
    assert!(matches!(
        v.step(TagVisitEvent::TokenNotSaved),
        Some(TagVisitAction::Reject { error: AppError::TokenSaveError, count_bad_attempt: false })
    ));

    let (mut v, _) = TagVisit::start_with_token("u".to_string(), "/tag/x", ID);
    v.step(TagVisitEvent::TagFound { tag_id: 1, drop_id: 1 });
    v.step(TagVisitEvent::DropFound { dir: "d".to_string() });
    v.step(TagVisitEvent::TokenSaved);
    assert!(matches!(
        v.step(TagVisitEvent::FetchFailed),
        Some(TagVisitAction::Reject { error: AppError::TagNotFound, count_bad_attempt: true })
    ));
}

#[test]
fn fresh_tokens_differ() {
    let (a, _) = TagVisit::start("u".to_string(), "/tag/x");
    let (b, _) = TagVisit::start("u".to_string(), "/tag/x");
    assert_ne!(a.token_id(), b.token_id());
}

fn fetch_uri_for(resource: Resource) -> String {
    let text = token_text(ID);
    let (mut req, first) = ContentRequest::start("http://up".to_string(), resource, Some(text.as_str()));
    assert!(matches!(first, ContentAction::LookupToken { token_id: ID }));
    assert!(matches!(req.step(ContentEvent::TokenFound { tag_id: 4 }), Some(ContentAction::LookupTag { tag_id: 4 })));
    assert!(matches!(
        req.step(ContentEvent::TagFound { tag_name: "mytag".to_string(), drop_id: 8 }),
        Some(ContentAction::FindDrop { drop_id: 8 })
    ));
    let uri = match req.step(ContentEvent::DropFound { dir: "artwork_1".to_string() }) {
        Some(ContentAction::Fetch { uri }) => uri,
        _ => panic!("the resource is fetched"),
    };
    assert!(matches!(req.step(ContentEvent::Fetched), Some(ContentAction::Forward)));
    uri
}

#[test]
fn content_requests_fetch_the_drop_resource() {
    assert_eq!(fetch_uri_for(Resource::Play), "http://up/tag/artwork_1/playlist.m3u8");
    assert_eq!(fetch_uri_for(Resource::Track { track_number: 3 }), "http://up/tag/artwork_1/mytag_3.m3u8");
    assert_eq!(fetch_uri_for(Resource::File { path: "a/b.ts".to_string() }), "http://up/tag/artwork_1/a/b.ts");
    assert_eq!(fetch_uri_for(Resource::PlaylistInfo), "http://up/tag/artwork_1/playlist.toml");
}

#[test]
fn content_request_failures() {
    let (_, first) = ContentRequest::start("u".to_string(), Resource::Play, None);
    assert!(matches!(first, ContentAction::Reject { error: AppError::Unauthorized, count_bad_attempt: false }));
    let (_, first) = ContentRequest::start("u".to_string(), Resource::Play, Some("nope"));
    assert!(matches!(first, ContentAction::Reject { error: AppError::Unauthorized, count_bad_attempt: false }));

    let text = token_text(ID);
    let (mut r, _) = ContentRequest::start("u".to_string(), Resource::Play, Some(text.as_str()));
    assert!(matches!(
        r.step(ContentEvent::TokenNotFound),
        Some(ContentAction::Reject { error: AppError::Unauthorized, count_bad_attempt: false })
    ));

    let (mut r, _) = ContentRequest::start("u".to_string(), Resource::PlaylistInfo, Some(text.as_str()));
    r.step(ContentEvent::TokenFound { tag_id: 1 });
    r.step(ContentEvent::TagFound { tag_name: "t".to_string(), drop_id: 1 });
    r.step(ContentEvent::DropFound { dir: "d".to_string() });
    assert!(matches!(
        r.step(ContentEvent::FetchFailed),
        Some(ContentAction::Reject { error: AppError::PlaylistNotFound, count_bad_attempt: true })
    ));

    let (mut r, _) = ContentRequest::start("u".to_string(), Resource::Track { track_number: 1 }, Some(text.as_str()));
    r.step(ContentEvent::TokenFound { tag_id: 1 });
    r.step(ContentEvent::TagFound { tag_name: "t".to_string(), drop_id: 1 });
    r.step(ContentEvent::DropFound { dir: "d".to_string() });
    assert!(matches!(
        r.step(ContentEvent::FetchFailed),
        Some(ContentAction::Reject { error: AppError::TagNotFound, count_bad_attempt: true })
    ));
    assert!(r.step(ContentEvent::Fetched).is_none());

    let (mut r, _) = ContentRequest::start("u".to_string(), Resource::Play, Some(text.as_str()));
    r.step(ContentEvent::TokenFound { tag_id: 1 });
    assert!(matches!(
        r.step(ContentEvent::TagNotFound),
        Some(ContentAction::Reject { error: AppError::Unauthorized, count_bad_attempt: false })
    ));
    let (mut r, _) = ContentRequest::start("u".to_string(), Resource::Play, Some(text.as_str()));
    r.step(ContentEvent::TokenFound { tag_id: 1 });
    r.step(ContentEvent::TagFound { tag_name: "t".to_string(), drop_id: 1 });
    assert!(matches!(
        r.step(ContentEvent::DropNotFound),
        Some(ContentAction::Reject { error: AppError::Unauthorized, count_bad_attempt: false })
    ));
}
