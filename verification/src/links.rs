//! Texts the proxy derives from requests and records: the tag named by a
//! request path, the access token's text and cookie, and the URIs of a drop's
//! resources on the upstream web server.

use vstd::prelude::*;
use vstd::string::*;
use crate::TOKEN_NAME;
use crate::text::{push_decimal, decimal, digit_char, opt_string_view};

verus! {

/// The pattern that picks the tag out of a request path: the last path
/// segment, with one trailing `/` allowed.
pub const TAG_PATTERN: &'static str = "([^/]+)/?$";

/// The longest suffix of `s` that holds no `/`.
pub open spec fn last_run(s: Seq<char>) -> Seq<char>
    decreases s.len(),
{
    if s.len() == 0 || s.last() == '/' {
        Seq::empty()
    } else {
        last_run(s.drop_last()).push(s.last())
    }
}

/// The tag named by a request path: its last non-empty segment, where the
/// path may end with one `/`; `None` when there is no such segment.
pub open spec fn tag_of_path(path: Seq<char>) -> Option<Seq<char>> {
    let body = if path.len() > 0 && path.last() == '/' { path.drop_last() } else { path };
    if body.len() > 0 && body.last() != '/' {
        Some(last_run(body))
    } else {
        None
    }
}

/// What the first capture group of `pattern` holds on its leftmost match in
/// `text` (`None` when the pattern does not compile, does not match, or the
/// group does not take part in the match).
pub uninterp spec fn regex_first_group(pattern: Seq<char>, text: Seq<char>) -> Option<Seq<char>>;

/// Compiles `pattern` with `regex::Regex::new` and returns the text of the
/// first capture group (`Captures::get(1)`) of `Regex::captures` on `text`.
/// Claimed: the result is `regex_first_group(pattern, text)`; for the tag
/// pattern, whose meaning under the crate's documented syntax (`[^/]` any
/// character but `/`, greedy `+`, optional `/`, `$` end of text, leftmost
/// match) is the last segment of the path, it is `tag_of_path(text)`.
#[verifier::external_body]
fn regex_first_capture(pattern: &str, text: &str) -> (r: Option<String>)
    ensures
        opt_string_view(r) == regex_first_group(pattern@, text@),
        pattern@ == TAG_PATTERN@ ==> opt_string_view(r) == tag_of_path(text@),
{
    let re = regex::Regex::new(pattern).ok()?;
    let caps = re.captures(text)?;
    caps.get(1).map(|m| m.as_str().to_string())
}

/// The tag named by a request path (see [`tag_of_path`]).
pub fn extract_tag_from_path(uri_path: &str) -> (r: Option<String>)
    ensures
        opt_string_view(r) == tag_of_path(uri_path@),
{
    regex_first_capture(TAG_PATTERN, uri_path)
}

/// Lower-case hexadecimal digit for `d` (meaningful for `d < 16`).
pub open spec fn hex_digit(d: u128) -> char {
    if d < 10 {
        digit_char(d as int)
    } else if d == 10 {
        'a'
    } else if d == 11 {
        'b'
    } else if d == 12 {
        'c'
    } else if d == 13 {
        'd'
    } else if d == 14 {
        'e'
    } else {
        'f'
    }
}

/// The `k`-th four-bit group of a UUID, most significant first.
pub open spec fn uuid_nibble(id: u128, k: int) -> u128 {
    (id >> ((124 - 4 * k) as u128)) & 0xf
}

/// The hyphenated lower-case text of a UUID: its 32 hexadecimal digits, most
/// significant first, in groups of 8, 4, 4, 4 and 12 joined by `-`.
pub open spec fn uuid_text(id: u128) -> Seq<char> {
    Seq::new(
        36,
        |i: int|
            if i == 8 || i == 13 || i == 18 || i == 23 {
                '-'
            } else {
                hex_digit(
                    uuid_nibble(
                        id,
                        if i < 8 {
                            i
                        } else if i < 13 {
                            i - 1
                        } else if i < 18 {
                            i - 2
                        } else if i < 23 {
                            i - 3
                        } else {
                            i - 4
                        },
                    ),
                )
            },
    )
}

/// The UUID that `uuid::Uuid::parse_str` reads from a text, if any.
pub uninterp spec fn uuid_parse(text: Seq<char>) -> Option<u128>;

/// `Uuid::from_u128(id).to_string()`.  Claimed: the result is
/// `uuid_text(id)`, the hyphenated lower-case form that `Display` writes.
#[verifier::external_body]
fn uuid_to_text(id: u128) -> (r: String)
    ensures
        r@ == uuid_text(id),
{
    uuid::Uuid::from_u128(id).to_string()
}

/// `Uuid::parse_str(text)`, read as a number with `Uuid::as_u128`.  Claimed:
/// the result is `uuid_parse(text)`, and the text that `Display` gives of a
/// UUID reads back as that UUID (the crate parses every format it prints).
#[verifier::external_body]
fn uuid_from_text(text: &str) -> (r: Option<u128>)
    ensures
        r == uuid_parse(text@),
        forall|id: u128| text@ == uuid_text(id) ==> r == Some(id),
{
    match uuid::Uuid::parse_str(text) {
        Ok(u) => Some(u.as_u128()),
        Err(_) => None,
    }
}

/// The access token a request presents, read from its token header.
pub fn parse_token(text: &str) -> (r: Option<u128>)
    ensures
        r == uuid_parse(text@),
        forall|id: u128| text@ == uuid_text(id) ==> r == Some(id),
{
    uuid_from_text(text)
}

/// The text of an access token.
pub fn token_text(token_id: u128) -> (r: String)
    ensures
        r@ == uuid_text(token_id),
{
    uuid_to_text(token_id)
}

/// The cookie that hands an access token to the client: `dop_token=<token>`.
pub open spec fn token_cookie_spec(token_id: u128) -> Seq<char> {
    TOKEN_NAME@ + "="@ + uuid_text(token_id)
}

pub fn token_cookie(token_id: u128) -> (r: String)
    ensures
        r@ == token_cookie_spec(token_id),
{
    let mut r = String::from_str(TOKEN_NAME);
    r.append("=");
    let t = uuid_to_text(token_id);
    r.append(t.as_str());
    r
}

/// `<redirect uri>/tag/<drop directory>/<leaf>`: a resource of a drop on the
/// upstream web server.
pub open spec fn drop_resource_uri(redirect_uri: Seq<char>, drop_dir: Seq<char>, leaf: Seq<char>) -> Seq<char> {
    redirect_uri + "/tag/"@ + drop_dir + "/"@ + leaf
}

/// `<tag name>_<track number>.m3u8`: the playlist of one track.
pub open spec fn track_leaf(tag_name: Seq<char>, track_number: u8) -> Seq<char> {
    tag_name + "_"@ + decimal(track_number as nat) + ".m3u8"@
}

pub fn drop_resource(redirect_uri: &str, drop_dir: &str, leaf: &str) -> (r: String)
    ensures
        r@ == drop_resource_uri(redirect_uri@, drop_dir@, leaf@),
{
    let mut r = String::from_str(redirect_uri);
    r.append("/tag/");
    r.append(drop_dir);
    r.append("/");
    r.append(leaf);
    r
}

/// The drop's landing page, served to a tag visit.
pub fn index_uri(redirect_uri: &str, drop_dir: &str) -> (r: String)
    ensures
        r@ == drop_resource_uri(redirect_uri@, drop_dir@, "index.html"@),
{
    drop_resource(redirect_uri, drop_dir, "index.html")
}

/// The drop's HLS playlist.
pub fn play_uri(redirect_uri: &str, drop_dir: &str) -> (r: String)
    ensures
        r@ == drop_resource_uri(redirect_uri@, drop_dir@, "playlist.m3u8"@),
{
    drop_resource(redirect_uri, drop_dir, "playlist.m3u8")
}

/// The drop's playlist description.
pub fn playlist_uri(redirect_uri: &str, drop_dir: &str) -> (r: String)
    ensures
        r@ == drop_resource_uri(redirect_uri@, drop_dir@, "playlist.toml"@),
{
    drop_resource(redirect_uri, drop_dir, "playlist.toml")
}

/// The playlist of one track of the drop.
pub fn track_uri(redirect_uri: &str, drop_dir: &str, tag_name: &str, track_number: u8) -> (r: String)
    ensures
        r@ == drop_resource_uri(redirect_uri@, drop_dir@, track_leaf(tag_name@, track_number)),
{
    let mut leaf = String::from_str(tag_name);
    leaf.append("_");
    push_decimal(&mut leaf, track_number as u128);
    leaf.append(".m3u8");
    let r = drop_resource(redirect_uri, drop_dir, leaf.as_str());
    assert(leaf@ =~= track_leaf(tag_name@, track_number));
    r
}

/// Any other file of the drop.
pub fn file_uri(redirect_uri: &str, drop_dir: &str, path: &str) -> (r: String)
    ensures
        r@ == drop_resource_uri(redirect_uri@, drop_dir@, path@),
{
    drop_resource(redirect_uri, drop_dir, path)
}

/// The tag of a path is its last segment: a non-empty segment `t` without
/// `/`, after any prefix and a `/`, is the tag whether or not one `/`
/// follows; a path that is empty or ends with `//` names no tag.
pub proof fn lemma_tag_is_last_segment(prefix: Seq<char>, t: Seq<char>)
    requires
        t.len() > 0,
        forall|i: int| 0 <= i < t.len() ==> t[i] != '/',
    ensures
        tag_of_path(prefix + seq!['/'] + t) == Some(t),
        tag_of_path(prefix + seq!['/'] + t + seq!['/']) == Some(t),
        tag_of_path(t) == Some(t),
        tag_of_path(prefix + seq!['/', '/']) is None,
        tag_of_path(Seq::empty()) is None,
{
    lemma_last_run_suffix(prefix + seq!['/'], t);
    lemma_last_run_suffix(Seq::empty(), t);
    assert(Seq::<char>::empty() + t =~= t);
    let p1 = prefix + seq!['/'] + t;
    assert((p1 + seq!['/']).drop_last() =~= p1);
    assert(p1.last() == t.last());
    let p2 = prefix + seq!['/', '/'];
    assert(p2.drop_last() =~= prefix + seq!['/']);
}

proof fn lemma_last_run_suffix(p: Seq<char>, t: Seq<char>)
    requires
        p.len() == 0 || p.last() == '/',
        forall|i: int| 0 <= i < t.len() ==> t[i] != '/',
    ensures
        last_run(p + t) == t,
    decreases t.len(),
{
    if t.len() == 0 {
        assert(p + t =~= p);
    } else {
        lemma_last_run_suffix(p, t.drop_last());
        assert((p + t).drop_last() =~= p + t.drop_last());
        assert((p + t).last() == t.last());
        assert(t.drop_last().push(t.last()) =~= t);
    }
}

} // verus!
