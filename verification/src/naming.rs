//! The names of the files that components are stored in: made of the digest
//! of the component's URL, or of the title and the name of its post.

use vstd::prelude::*;

use crate::media::{MediaType, MP4_EXTENSION};
use crate::text::{
    after_last, append, chars_of, contains, decimal, decimal_of, first_chars, has_substring,
    replace, replace_all, same_str, same_text, string_of, suffix_after_last,
};
use crate::wrappers::{is_whitespace, lowercased, md5_hex, to_lowercase, whitespace};

verus! {

/// The longest title, in characters, that goes into a file name.
pub const TITLE_LIMIT: usize = 200;

/// A character of a title as it goes into a file name: an underscore in
/// place of white space and of `.`, `/`, `\\`, `:` and `=`.
pub open spec fn canonical_char(c: char, blank: bool) -> char {
    if blank || c == '.' || c == '/' || c == '\\' || c == ':' || c == '=' {
        '_'
    } else {
        c
    }
}

/// A title as it goes into a file name: in lower case, cut after 200
/// characters, each character made canonical.
pub open spec fn canonical_title(title: Seq<char>) -> Seq<char> {
    let lower = lowercased(title);
    Seq::new(
        if lower.len() <= TITLE_LIMIT {
            lower.len()
        } else {
            TITLE_LIMIT as nat
        },
        |i: int| canonical_char(lower[i], whitespace(lower[i])),
    )
}

/// A post's name as it goes into a file name: followed by the index, behind
/// an underscore, unless that is "0", and with an underscore for every dot.
pub open spec fn canonical_name(name: Seq<char>, index: Seq<char>) -> Seq<char> {
    replace_all(
        if index == "0"@ {
            name
        } else {
            name + "_"@ + index
        },
        "."@,
        "_"@,
    )
}

/// The file name made of a URL's digest.
pub open spec fn hashed_file_name(
    directory: Seq<char>,
    subreddit: Seq<char>,
    digest: Seq<char>,
    extension: Seq<char>,
) -> Seq<char> {
    directory + "/"@ + subreddit + "/img-"@ + digest + "."@ + extension
}

/// The file name made of a post's title and name, both canonical.
pub open spec fn readable_file_name(
    directory: Seq<char>,
    subreddit: Seq<char>,
    title: Seq<char>,
    name: Seq<char>,
    extension: Seq<char>,
) -> Seq<char> {
    directory + "/"@ + subreddit + "/"@ + title + "_"@ + name + "."@ + extension
}

/// The path of the file that holds a component, under the directory of
/// its subreddit: named by the MD5 digest of its URL, or, for readable
/// names, by the post's title and name.
pub open spec fn file_name(
    human_readable: bool,
    directory: Seq<char>,
    url: Seq<char>,
    subreddit: Seq<char>,
    extension: Seq<char>,
    name: Seq<char>,
    title: Seq<char>,
    index: Seq<char>,
) -> Seq<char> {
    if human_readable {
        readable_file_name(
            directory,
            subreddit,
            canonical_title(title),
            canonical_name(name, index),
            extension,
        )
    } else {
        hashed_file_name(directory, subreddit, md5_hex(url), extension)
    }
}

/// Whether a media is a video that the platform hosts.
pub open spec fn is_reddit_video(media_type: MediaType) -> bool {
    media_type == MediaType::RedditVideoWithAudio || media_type
        == MediaType::RedditVideoWithoutAudio
}

/// The index of a component as it goes into a file name. The components of
/// a video with audio are marked as such, to tell them from the images of a
/// gallery.
pub open spec fn component_index(media_type: MediaType, index: nat) -> Seq<char> {
    if media_type == MediaType::RedditVideoWithAudio {
        "component_"@ + decimal(index)
    } else {
        decimal(index)
    }
}

/// What follows the last dot of a URL, with an underscore for every slash.
pub open spec fn url_extension(url: Seq<char>) -> Seq<char> {
    replace_all(after_last(url, '.'), "/"@, "_"@)
}

/// The extension of the file that holds a component. For the newer gif
/// host it tells a video from a gif. For a hosted video, a component behind
/// the first whose URL does not end in the video extension gets that
/// extension added.
pub open spec fn component_extension(media_type: MediaType, url: Seq<char>, index: nat) -> Seq<
    char,
> {
    if media_type == MediaType::RedgifsVideo {
        if has_substring(url, MP4_EXTENSION@) {
            ".mp4"@
        } else {
            ".gif"@
        }
    } else if is_reddit_video(media_type) && index != 0 && url_extension(url) != MP4_EXTENSION@ {
        url_extension(url) + ".mp4"@
    } else {
        url_extension(url)
    }
}

/// A character of a title as it goes into a file name; `blank` says
/// whether the character is white space.
pub fn canonical_char_of(c: char, blank: bool) -> (r: char)
    ensures
        r == canonical_char(c, blank),
{
    if blank || c == '.' || c == '/' || c == '\\' || c == ':' || c == '=' {
        '_'
    } else {
        c
    }
}

/// A title as it goes into a file name.
pub fn canonical_title_of(title: &str) -> (r: String)
    ensures
        r@ == canonical_title(title@),
{
    let lower = to_lowercase(title);
    let kept = first_chars(lower.as_str(), TITLE_LIMIT);
    let mut out: Vec<char> = Vec::new();
    let mut i: usize = 0;
    while i < kept.len()
        invariant
            i <= kept.len() <= lower@.len(),
            kept@ == lower@.take(kept@.len() as int),
            out@ =~= Seq::new(
                i as nat,
                |k: int| canonical_char(lower@[k], whitespace(lower@[k])),
            ),
        decreases kept.len() - i,
    {
        let c: char = kept[i];
        out.push(canonical_char_of(c, is_whitespace(c)));
        i += 1;
    }
    string_of(&out)
}

/// A post's name as it goes into a file name.
pub fn canonical_name_of(name: &str, index: &str) -> (r: String)
    ensures
        r@ == canonical_name(name@, index@),
{
    let mut full = chars_of(name);
    if !same_str(index, "0") {
        append(&mut full, &chars_of("_"));
        append(&mut full, &chars_of(index));
    }
    string_of(&replace(&full, &chars_of("."), &chars_of("_")))
}

/// The file name made of a URL's digest.
pub fn hashed_name(directory: &str, subreddit: &str, digest: &str, extension: &str) -> (r: String)
    ensures
        r@ == hashed_file_name(directory@, subreddit@, digest@, extension@),
{
    let mut r = chars_of(directory);
    append(&mut r, &chars_of("/"));
    append(&mut r, &chars_of(subreddit));
    append(&mut r, &chars_of("/img-"));
    append(&mut r, &chars_of(digest));
    append(&mut r, &chars_of("."));
    append(&mut r, &chars_of(extension));
    string_of(&r)
}

/// The file name made of a canonical title and a canonical name.
pub fn readable_name(
    directory: &str,
    subreddit: &str,
    title: &str,
    name: &str,
    extension: &str,
) -> (r: String)
    ensures
        r@ == readable_file_name(directory@, subreddit@, title@, name@, extension@),
{
    let mut r = chars_of(directory);
    append(&mut r, &chars_of("/"));
    append(&mut r, &chars_of(subreddit));
    append(&mut r, &chars_of("/"));
    append(&mut r, &chars_of(title));
    append(&mut r, &chars_of("_"));
    append(&mut r, &chars_of(name));
    append(&mut r, &chars_of("."));
    append(&mut r, &chars_of(extension));
    string_of(&r)
}

/// The index of a component as it goes into a file name.
pub fn component_index_of(media_type: MediaType, index: usize) -> (r: String)
    ensures
        r@ == component_index(media_type, index as nat),
{
    let digits = decimal_of(index as u64);
    if media_type == MediaType::RedditVideoWithAudio {
        let mut r = chars_of("component_");
        append(&mut r, &digits);
        string_of(&r)
    } else {
        string_of(&digits)
    }
}

/// The extension of the file that holds a component.
pub fn component_extension_of(media_type: MediaType, url: &str, index: usize) -> (r: String)
    ensures
        r@ == component_extension(media_type, url@, index as nat),
{
    let u = chars_of(url);
    let mp4 = chars_of(MP4_EXTENSION);
    if media_type == MediaType::RedgifsVideo {
        if contains(&u, &mp4) {
            string_of(&chars_of(".mp4"))
        } else {
            string_of(&chars_of(".gif"))
        }
    } else {
        let mut extension = replace(&suffix_after_last(&u, '.'), &chars_of("/"), &chars_of("_"));
        let video = media_type == MediaType::RedditVideoWithAudio || media_type
            == MediaType::RedditVideoWithoutAudio;
        if video && index != 0 && !same_text(&extension, &mp4) {
            append(&mut extension, &chars_of(".mp4"));
        }
        string_of(&extension)
    }
}

/// A file name made of a URL's digest is a function of the directory, the
/// subreddit, the URL and the extension alone: the post's name, its title and
/// the component's index do not enter.
pub proof fn lemma_hashed_name_is_of_the_url(
    directory: Seq<char>,
    url: Seq<char>,
    subreddit: Seq<char>,
    extension: Seq<char>,
    name: Seq<char>,
    title: Seq<char>,
    index: Seq<char>,
    other_name: Seq<char>,
    other_title: Seq<char>,
    other_index: Seq<char>,
)
    ensures
        file_name(false, directory, url, subreddit, extension, name, title, index) == file_name(
            false,
            directory,
            url,
            subreddit,
            extension,
            other_name,
            other_title,
            other_index,
        ),
        file_name(false, directory, url, subreddit, extension, name, title, index)
            == directory + "/"@ + subreddit + "/img-"@ + md5_hex(url) + "."@ + extension,
{
}

} // verus!
