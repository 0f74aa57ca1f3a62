//! Small helpers: what is shown of the configuration, the user agent, and
//! what the answers of the auxiliary requests say.

use vstd::prelude::*;
use vstd::string::*;

use crate::errors::ReddSaverError;
use crate::text::{
    append, chars_of, contains, decimal, decimal_of, join_with, replace, replace_all, same_str,
    string_of,
};
use crate::wrappers::{
    json_string, json_string_at, lowercased, mime_names, parse_mime, path_exists, random_name,
    random_number, to_lowercase, which_finds,
};

verus! {

/// Check if a particular path is present on the filesystem
pub fn check_path_present(file_path: &str) -> (r: bool) {
    path_exists(file_path)
}

/// Check if the given application is present in the $PATH
pub fn application_present(name: String) -> (r: bool) {
    which_finds(name.as_str())
}

/// A word as it is shown where it must not be read: `bytes` is its length
/// in bytes. The empty word is shown as such, a word of up to three bytes as
/// that many stars, any longer word with stars for all its characters but
/// the two first and the one at the position of its last byte.
pub open spec fn masked(word: Seq<char>, bytes: nat) -> Seq<char> {
    if word.len() == 0 {
        "<EMPTY>"@
    } else if bytes <= 3 {
        Seq::new(bytes, |i: int| '*')
    } else {
        Seq::new(
            word.len(),
            |i: int|
                if i == 0 || i == 1 || i == bytes - 1 {
                    word[i]
                } else {
                    '*'
                },
        )
    }
}

/// Function that masks sensitive data such as password and client secrets
pub fn mask_sensitive(word: &str) -> (r: String)
    ensures
        r@ == masked(word@, word.spec_bytes().len()),
{
    let word_length: usize = word.as_bytes().len();
    if word.is_empty() {
        // return with indication if string is empty
        string_of(&chars_of("<EMPTY>"))
    } else if word_length <= 3 {
        // if string length is between 1-3, mask all characters
        let mut out: Vec<char> = Vec::new();
        let mut i: usize = 0;
        while i < word_length
            invariant
                i <= word_length,
                out@ =~= Seq::new(i as nat, |k: int| '*'),
            decreases word_length - i,
        {
            out.push('*');
            i += 1;
        }
        string_of(&out)
    } else {
        // mask all characters except the first two and the last
        let characters = chars_of(word);
        let mut out: Vec<char> = Vec::new();
        let mut i: usize = 0;
        while i < characters.len()
            invariant
                i <= characters.len(),
                word_length > 3,
                out@ =~= Seq::new(
                    i as nat,
                    |k: int|
                        if k == 0 || k == 1 || k == word_length - 1 {
                            characters@[k]
                        } else {
                            '*'
                        },
                ),
            decreases characters.len() - i,
        {
            if i == 0 || i == 1 || i == word_length - 1 {
                out.push(characters[i]);
            } else {
                out.push('*');
            }
            i += 1;
        }
        string_of(&out)
    }
}

/// The subreddits to restrict a run to: those given, unless none is given
/// or the first is empty.
pub fn coerce_subreddits<'a>(subreddits: Vec<&'a str>) -> (r: Option<Vec<&'a str>>)
    ensures
        r == if subreddits@.len() > 0 && subreddits@[0]@.len() != 0 {
            Some(subreddits)
        } else {
            None
        },
{
    if subreddits.len() > 0 && !subreddits[0].is_empty() {
        Some(subreddits)
    } else {
        None
    }
}

/// The subreddits as they are shown: their names with commas between, or
/// a mark that stands for all.
pub open spec fn shown_subreddits(subreddits: Option<Seq<Seq<char>>>) -> Seq<char> {
    match subreddits {
        Some(names) => join_with(names, ","@),
        None => "<ALL>"@,
    }
}

/// Return delimited subreddit names or ALL if None
pub fn print_subreddits(subreddits: &Option<Vec<&str>>) -> (r: String)
    ensures
        r@ == shown_subreddits(
            match *subreddits {
                Some(names) => Some(Seq::new(names@.len(), |i: int| names@[i]@)),
                None => None,
            },
        ),
{
    match subreddits {
        Some(names) => {
            let ghost all = Seq::new(names@.len(), |i: int| names@[i]@);
            let comma = chars_of(",");
            let mut out: Vec<char> = Vec::new();
            let mut i: usize = 0;
            while i < names.len()
                invariant
                    i <= names.len(),
                    all == Seq::new(names@.len(), |k: int| names@[k]@),
                    comma@ == ","@,
                    out@ == join_with(all.subrange(0, i as int), ","@),
                decreases names.len() - i,
            {
                let ghost before = out@;
                if i > 0 {
                    append(&mut out, &comma);
                }
                append(&mut out, &chars_of(names[i]));
                proof {
                    let now = all.subrange(0, i + 1);
                    assert(now.drop_last() =~= all.subrange(0, i as int));
                    assert(now.last() == names@[i as int]@);
                    if i == 0 {
                        assert(before =~= Seq::<char>::empty());
                        assert(out@ =~= names@[0]@);
                    }
                }
                i += 1;
            }
            proof {
                assert(all.subrange(0, names@.len() as int) =~= all);
            }
            string_of(&out)
        },
        None => string_of(&chars_of("<ALL>")),
    }
}

/// A user agent: a name and a version with a colon between.
pub open spec fn agent(name: Seq<char>, version: Seq<char>) -> Seq<char> {
    name + ":"@ + version
}

/// The user agent made of a name and a number drawn at random: the name in
/// lower case and without its blanks, the number in base ten.
pub open spec fn random_agent(name: Seq<char>, version: u32) -> Seq<char> {
    agent(lowercased(replace_all(name, " "@, Seq::empty())), decimal(version as nat))
}

/// The user agent string of the form <name>:<version>.
pub fn agent_string(name: &str, version: &str) -> (r: String)
    ensures
        r@ == agent(name@, version@),
{
    let mut r = chars_of(name);
    append(&mut r, &chars_of(":"));
    append(&mut r, &chars_of(version));
    string_of(&r)
}

/// The user agent string made of a random name and a random number.
pub fn random_agent_string(name: &str, version: u32) -> (r: String)
    ensures
        r@ == random_agent(name@, version),
{
    let blank = chars_of(" ");
    let nothing: Vec<char> = Vec::new();
    proof {
        assert(nothing@ =~= Seq::<char>::empty());
    }
    let joined = string_of(&replace(&chars_of(name), &blank, &nothing));
    let lower = to_lowercase(joined.as_str());
    let digits = string_of(&decimal_of(version as u64));
    agent_string(lower.as_str(), digits.as_str())
}

/// Generate user agent string of the form <name>:<version>.
/// If no arguments passed generate random name and number
pub fn get_user_agent_string(name: Option<String>, version: Option<String>) -> (r: String)
    ensures
        match (version, name) {
            (Some(v), Some(n)) => r@ == agent(n@, v@),
            _ => exists|random_name: Seq<char>, random_version: u32|
                r@ == random_agent(random_name, random_version),
        },
{
    match (version, name) {
        (Some(v), Some(n)) => agent_string(n.as_str(), v.as_str()),
        _ => {
            let random = random_name();
            let number: u32 = random_number();
            random_agent_string(random.as_str(), number)
        },
    }
}

/// Whether a media type, given by its type and subtype, is an mp4 video.
pub open spec fn is_mp4_video(kind: Seq<char>, subtype: Seq<char>) -> bool {
    kind == "video"@ && subtype == "mp4"@
}

/// What a content type says of the content: `Some(true)` for an mp4 video,
/// `Some(false)` for anything else, `None` where there is no content type or
/// none that can be read.
pub open spec fn content_is_mp4(content_type: Option<Seq<char>>) -> Option<bool> {
    match content_type {
        Some(value) => match mime_names(value) {
            Some(names) => Some(is_mp4_video(names.0, names.1)),
            None => None,
        },
        None => None,
    }
}

/// Whether the media type with this type and subtype is an mp4 video.
pub fn mp4_video(kind: &str, subtype: &str) -> (r: bool)
    ensures
        r == is_mp4_video(kind@, subtype@),
{
    same_str(kind, "video") && same_str(subtype, "mp4")
}

/// Check if the given URL contains an MP4 track using the content type.
/// `content_type` is the content type that the answer to a request for the
/// URL carries, `None` where it carries none or the request failed.
pub fn check_url_is_mp4(content_type: Option<&str>) -> (r: Option<bool>)
    ensures
        r == content_is_mp4(
            match content_type {
                Some(value) => Some(value@),
                None => None,
            },
        ),
{
    match content_type {
        Some(value) => match parse_mime(value) {
            Some(names) => Some(mp4_video(names.0.as_str(), names.1.as_str())),
            None => None,
        },
        None => None,
    }
}

/// A token as it is sent with a request.
pub open spec fn bearer(token: Seq<char>) -> Seq<char> {
    "Bearer "@ + token
}

/// A token as it is sent with a request: behind the word `Bearer`.
pub fn bearer_token(token: &str) -> (r: String)
    ensures
        r@ == bearer(token@),
{
    let mut r = chars_of("Bearer ");
    append(&mut r, &chars_of(token));
    string_of(&r)
}

/// The token that the answer to a request for one holds, `found` being the
/// string of the answer under `token`.
pub fn redgif_token_from(found: Option<Option<String>>) -> (r: Result<String, ReddSaverError>)
    ensures
        match found {
            Some(Some(token)) => r matches Ok(full) && full@ == bearer(token@),
            _ => r matches Err(ReddSaverError::CouldNotSaveImageError(name)) && name@.len() == 0,
        },
{
    match found {
        Some(Some(token)) => Ok(bearer_token(token.as_str())),
        _ => Err(ReddSaverError::CouldNotSaveImageError(String::new())),
    }
}

/// Reads the token out of the answer to a request for one: `response` is
/// the body of the answer. The token comes back as it is sent with later
/// requests. An answer that is no JSON, or that holds no string under
/// `token`, gives an error.
pub fn fetch_redgif_token(response: &str) -> (r: Result<String, ReddSaverError>)
    ensures
        match json_string(response@, "/token"@) {
            Some(Some(token)) => r matches Ok(full) && full@ == bearer(token),
            _ => r matches Err(ReddSaverError::CouldNotSaveImageError(name)) && name@.len() == 0,
        },
{
    redgif_token_from(json_string_at(response, "/token"))
}

} // verus!
