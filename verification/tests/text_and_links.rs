use drop_reverse_proxy::links::{
    extract_tag_from_path, file_uri, index_uri, parse_token, play_uri, playlist_uri, token_cookie, token_text,
    track_uri,
};
use drop_reverse_proxy::text::{decimal_string, ends_with, starts_with};

#[test]
fn decimal_string_renders_integers() {
    assert_eq!(decimal_string(0), "0");
    assert_eq!(decimal_string(7), "7");
    assert_eq!(decimal_string(10), "10");
    assert_eq!(decimal_string(1234567890), "1234567890");
    assert_eq!(decimal_string(-42), "-42");
    assert_eq!(decimal_string(i64::MIN), "-9223372036854775808");
    assert_eq!(decimal_string(i64::MAX), "9223372036854775807");
}

#[test]
fn prefix_and_suffix_tests() {
    assert!(starts_with("127.0.0.1", "127"));
    assert!(!starts_with("10.0.0.127", "127"));
    assert!(starts_with("abc", ""));
    assert!(!starts_with("ab", "abc"));
    assert!(ends_with("drop_1.tar.gz", ".tar.gz"));
    assert!(!ends_with("drop_1.tar", ".tar.gz"));
    assert!(ends_with("é.tar.gz", ".tar.gz"));
}

#[test]
fn tag_is_last_path_segment() {
    assert_eq!(extract_tag_from_path("/tag/jdznjevb"), Some("jdznjevb".to_string()));
    assert_eq!(extract_tag_from_path("/tag/jdznjevb/"), Some("jdznjevb".to_string()));
    assert_eq!(extract_tag_from_path("tag3"), Some("tag3".to_string()));
    assert_eq!(extract_tag_from_path("/a/b/c"), Some("c".to_string()));
    assert_eq!(extract_tag_from_path(""), None);
    assert_eq!(extract_tag_from_path("/"), None);
    assert_eq!(extract_tag_from_path("/tag//"), None);
}

#[test]
fn token_text_reads_back() {
    let id: u128 = 0x550e8400_e29b_41d4_a716_446655440000;
    let text = token_text(id);
    assert_eq!(text, "550e8400-e29b-41d4-a716-446655440000");
    assert_eq!(parse_token(&text), Some(id));
    assert_eq!(parse_token("not a uuid"), None);
    assert_eq!(parse_token("550E8400E29B41D4A716446655440000"), Some(id));
}

#[test]
fn token_cookie_names_the_token() {
    let id: u128 = 0x550e8400_e29b_41d4_a716_446655440000;
    assert_eq!(token_cookie(id), "dop_token=550e8400-e29b-41d4-a716-446655440000");
}

#[test]
fn drop_resource_uris() {
    assert_eq!(index_uri("http://up", "artwork_3"), "http://up/tag/artwork_3/index.html");
    assert_eq!(play_uri("http://up", "d"), "http://up/tag/d/playlist.m3u8");
    assert_eq!(playlist_uri("http://up", "d"), "http://up/tag/d/playlist.toml");
    assert_eq!(file_uri("http://up", "d", "seg/1.ts"), "http://up/tag/d/seg/1.ts");
    assert_eq!(track_uri("http://up", "d", "mytag", 12), "http://up/tag/d/mytag_12.m3u8");
    assert_eq!(track_uri("http://up", "d", "t", 0), "http://up/tag/d/t_0.m3u8");
}
