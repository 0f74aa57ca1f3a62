//! The calls that leave this crate. Each contract here is taken on trust
//! from the documentation or the source of the function it describes.

use vstd::prelude::*;

verus! {

/// What the `url` crate makes of a text: `None` where it is no URL or a URL
/// that cannot be a base; otherwise the URL's serialization cut at the end of
/// its path, after an empty last path segment has been dropped, and beside it
/// the path alone.
pub uninterp spec fn url_parts(link: Seq<char>) -> Option<(Seq<char>, Seq<char>)>;

/// The MD5 digest of a text's UTF-8 bytes, as the `md5` crate writes it in
/// lower-case hexadecimal.
pub uninterp spec fn md5_hex(text: Seq<char>) -> Seq<char>;

/// What the named group of a regular expression captures in the leftmost
/// match that the `regex` crate finds in a text: `None` where the pattern
/// does not compile, the text has no match or the group took no part.
pub uninterp spec fn regex_group(pattern: Seq<char>, text: Seq<char>, group: Seq<char>) -> Option<
    Seq<char>,
>;

/// The type and subtype that the `mime` crate reads out of a media type,
/// `None` where it cannot parse the text.
pub uninterp spec fn mime_names(value: Seq<char>) -> Option<(Seq<char>, Seq<char>)>;

/// The string that a JSON text holds at a JSON pointer, as `serde_json` reads
/// it: `None` where the text is no JSON, `Some(None)` where the pointer leads
/// nowhere or to something other than a string.
pub uninterp spec fn json_string(text: Seq<char>, pointer: Seq<char>) -> Option<Option<Seq<char>>>;

/// The standard base64 encoding, with padding, of a text's UTF-8 bytes, as
/// the `base64` crate gives it.
pub uninterp spec fn base64_text(text: Seq<char>) -> Seq<char>;

/// The lower-case form that std gives a text.
pub uninterp spec fn lowercased(text: Seq<char>) -> Seq<char>;

/// Whether std counts a character as white space.
pub uninterp spec fn whitespace(c: char) -> bool;

/// `String::push`: the string afterwards is the string before with `c`
/// added at its end.
#[verifier::external_body]
pub(crate) fn push_char(s: &mut String, c: char)
    ensures
        final(s)@ == old(s)@.push(c),
{
    s.push(c)
}

/// `str::to_lowercase`. The result is a function of the text alone.
#[verifier::external_body]
pub(crate) fn to_lowercase(text: &str) -> (r: String)
    ensures
        r@ == lowercased(text@),
{
    text.to_lowercase()
}

/// `char::is_whitespace`. The result is a function of the character alone.
#[verifier::external_body]
pub(crate) fn is_whitespace(c: char) -> (r: bool)
    ensures
        r == whitespace(c),
{
    c.is_whitespace()
}

/// `url::Url::parse`, then `PathSegmentsMut::pop_if_empty` on the parsed URL
/// and two slices of it by `url::Position`: up to the end of the path, and
/// from the end of the host to the end of the path. A text that does not
/// parse, or parses to a URL that cannot be a base, gives `None`. The result
/// is a function of the text alone.
#[verifier::external_body]
pub(crate) fn split_url(link: &str) -> (r: Option<(String, String)>)
    ensures
        match r {
            Some(p) => url_parts(link@) == Some((p.0@, p.1@)),
            None => url_parts(link@) is None,
        },
{
    let mut parsed = url::Url::parse(link).ok()?;
    parsed.path_segments_mut().ok()?.pop_if_empty();
    let whole = parsed[..url::Position::AfterPath].to_string();
    let path = parsed[url::Position::AfterHost..url::Position::AfterPath].to_string();
    Some((whole, path))
}

/// `md5::compute` on the text's bytes, written with the digest's lower-case
/// hexadecimal formatting. The result is a function of the text alone.
#[verifier::external_body]
pub(crate) fn compute_md5_hex(text: &str) -> (r: String)
    ensures
        r@ == md5_hex(text@),
{
    format!("{:x}", md5::compute(text))
}

/// `regex::Regex::new` on the pattern, `Regex::captures` on the text and
/// `Captures::name` on the group, giving the matched text. The result is a
/// function of the three texts alone.
#[verifier::external_body]
pub(crate) fn capture_group(pattern: &str, text: &str, group: &str) -> (r: Option<String>)
    ensures
        match r {
            Some(t) => regex_group(pattern@, text@, group@) == Some(t@),
            None => regex_group(pattern@, text@, group@) is None,
        },
{
    let expression = regex::Regex::new(pattern).ok()?;
    let captures = expression.captures(text)?;
    captures.name(group).map(|m| m.as_str().to_string())
}

/// `mime::Mime::from_str`, then `Mime::type_` and `Mime::subtype` as texts.
/// The result is a function of the text alone.
#[verifier::external_body]
pub(crate) fn parse_mime(value: &str) -> (r: Option<(String, String)>)
    ensures
        match r {
            Some(p) => mime_names(value@) == Some((p.0@, p.1@)),
            None => mime_names(value@) is None,
        },
{
    let parsed = value.parse::<mime::Mime>().ok()?;
    Some((parsed.type_().as_str().to_string(), parsed.subtype().as_str().to_string()))
}

/// `serde_json::from_str` into a `Value`, then `Value::pointer` and
/// `Value::as_str`. The result is a function of the two texts alone.
#[verifier::external_body]
pub(crate) fn json_string_at(text: &str, pointer: &str) -> (r: Option<Option<String>>)
    ensures
        match r {
            Some(Some(t)) => json_string(text@, pointer@) == Some(Some(t@)),
            Some(None) => json_string(text@, pointer@) == Some(None::<Seq<char>>),
            None => json_string(text@, pointer@) is None,
        },
{
    let value = serde_json::from_str::<serde_json::Value>(text).ok()?;
    Some(value.pointer(pointer).and_then(|found| found.as_str()).map(|t| t.to_string()))
}

/// `base64::encode` on the text's bytes. The result is a function of the
/// text alone.
#[verifier::external_body]
pub(crate) fn base64_encode(text: &str) -> (r: String)
    ensures
        r@ == base64_text(text@),
{
    base64::encode(text)
}

/// `random_names::RandomName::new`, as a text. Nothing is known of the name:
/// it is drawn at random.
#[verifier::external_body]
pub(crate) fn random_name() -> (r: String)
{
    random_names::RandomName::new().name
}

/// `rand::Rng::gen` on `rand::thread_rng()`. Nothing is known of the
/// number: it is drawn at random.
#[verifier::external_body]
pub(crate) fn random_number() -> (r: u32)
{
    rand::Rng::gen::<u32>(&mut rand::thread_rng())
}

/// `std::path::Path::exists` on the path. Nothing is known of the answer: it
/// depends on what is on disk when the call is made.
#[verifier::external_body]
pub(crate) fn path_exists(file_path: &str) -> (r: bool)
{
    std::path::Path::new(file_path).exists()
}

/// `which::which` on the name of a program, as whether it found one. Nothing
/// is known of the answer: it depends on the search path and on what is on
/// disk.
#[verifier::external_body]
pub(crate) fn which_finds(name: &str) -> (r: bool)
{
    which::which(name).is_ok()
}

} // verus!
