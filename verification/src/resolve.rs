//! From a post to its media: the URL is normalized, each host's rule is
//! tried in turn, and what the rules give is put together.

use vstd::prelude::*;

use crate::media::{
    all_well_formed, audio_lookup, audio_probe, audio_url, fallback_url, gallery_ids, gallery_image_url,
    gfy_api_url, gfy_lookup, gfy_mp4_url, gfycat, GFYCAT_API_PREFIX, GFYCAT_DOMAIN, GIF_EXTENSION,
    GIFV_EXTENSION, giphy, GIPHY_DOMAIN, GIPHY_MEDIA_SUBDOMAIN, GIPHY_MEDIA_SUBDOMAIN_0,
    GIPHY_MEDIA_SUBDOMAIN_1, GIPHY_MEDIA_SUBDOMAIN_2, GIPHY_MEDIA_SUBDOMAIN_3,
    GIPHY_MEDIA_SUBDOMAIN_4, imgur, IMGUR_DOMAIN, IMGUR_SUBDOMAIN, is_video_only, JPG_EXTENSION,
    lemma_media_are_well_formed, media_of, MediaSpec, MediaType, MP4_EXTENSION, on_giphy_media, one_component, only_when,
    PNG_EXTENSION, post_audio_lookup, post_gfy_lookup, post_media, REDDIT_AUDIO_FILE,
    REDDIT_DOMAIN, REDDIT_FALLBACK_QUERY, reddit_gallery, REDDIT_GALLERY_PATH,
    REDDIT_IMAGE_SUBDOMAIN, reddit_images, reddit_video, REDDIT_VIDEO_SUBDOMAIN, reddit_videos,
    redgifs, REDGIFS_API_PREFIX, REDGIFS_DOMAIN, SupportedMedia, video_source,
};
use crate::structures::{GfyData, PostData};
use crate::text::{
    append, chars_of, contains, ends_with, has_substring, has_suffix, prefix_through_last, replace,
    same_text, slice_of, string_of, suffix_after_last,
};
use crate::wrappers::split_url;

verus! {

/// Whether `pat` stands somewhere in `s`.
fn holds(s: &Vec<char>, pat: &str) -> (r: bool)
    ensures
        r == has_substring(s@, pat@),
{
    let p = chars_of(pat);
    contains(s, &p)
}

/// Whether `s` ends with `pat`.
fn ends(s: &Vec<char>, pat: &str) -> (r: bool)
    ensures
        r == has_suffix(s@, pat@),
{
    let p = chars_of(pat);
    ends_with(s, &p)
}

/// Whether `s` is the text `pat`.
fn is_text(s: &Vec<char>, pat: &str) -> (r: bool)
    ensures
        r == (s@ == pat@),
{
    same_text(s, &chars_of(pat))
}

/// A media of the one component `url`.
fn single(media_type: MediaType, url: &Vec<char>) -> (m: SupportedMedia)
    ensures
        m.deep_view() == one_component(media_type, url@),
{
    let mut components: Vec<String> = Vec::new();
    components.push(string_of(url));
    proof {
        assert(components.deep_view() =~= seq![url@]);
    }
    SupportedMedia { components, media_type }
}

/// Adds `m` at the end of `list`.
fn push_media(list: &mut Vec<SupportedMedia>, m: SupportedMedia)
    ensures
        final(list).deep_view() == old(list).deep_view() + seq![m.deep_view()],
{
    list.push(m);
    proof {
        assert(list.deep_view() =~= old(list).deep_view() + seq![m.deep_view()]);
    }
}

/// Adds `m` at the end of `list` where `cond` holds.
fn push_when(list: &mut Vec<SupportedMedia>, cond: bool, m: SupportedMedia)
    ensures
        final(list).deep_view() == old(list).deep_view() + only_when(cond, m.deep_view()),
{
    if cond {
        push_media(list, m);
    } else {
        proof {
            assert(list.deep_view() + Seq::<MediaSpec>::empty() =~= list.deep_view());
        }
    }
}

/// Adds the media of the platform's image subdomain.
fn add_reddit_images(media: &mut Vec<SupportedMedia>, url: &Vec<char>)
    ensures
        final(media).deep_view() == old(media).deep_view() + reddit_images(url@),
{
    if holds(url, REDDIT_IMAGE_SUBDOMAIN) {
        let image = ends(url, JPG_EXTENSION) || ends(url, PNG_EXTENSION);
        let gif = ends(url, GIF_EXTENSION);
        let ghost before = media.deep_view();
        push_when(media, image, single(MediaType::RedditImage, url));
        push_when(media, gif, single(MediaType::RedditGif, url));
        proof {
            let a = only_when(image, one_component(MediaType::RedditImage, url@));
            let b = only_when(gif, one_component(MediaType::RedditGif, url@));
            assert((before + a) + b =~= before + (a + b));
        }
    } else {
        proof {
            assert(media.deep_view() + Seq::<MediaSpec>::empty() =~= media.deep_view());
        }
    }
}

/// Whether `name` is a file name under which a video without sound is served.
fn video_only(name: &Vec<char>) -> (r: bool)
    ensures
        r == is_video_only(name@),
{
    is_text(name, "DASH_1_2_M") || is_text(name, "DASH_2_4_M") || is_text(name, "DASH_4_8_M")
}

/// The audio URL that belongs to the video at `url`.
fn audio_url_chars(url: &Vec<char>) -> (r: Vec<char>)
    ensures
        r@ == audio_url(url@),
{
    let mut r = prefix_through_last(url, '/');
    let name = chars_of(REDDIT_AUDIO_FILE);
    append(&mut r, &name);
    r
}

/// The media of the hosted video at `url`.
fn reddit_video_chars(url: &Vec<char>, audio: Option<bool>) -> (m: SupportedMedia)
    ensures
        m.deep_view() == reddit_video(url@, audio),
{
    let name = suffix_after_last(url, '/');
    let with_audio = match audio {
        Some(found) => found && !video_only(&name),
        None => false,
    };
    if with_audio {
        let mut components: Vec<String> = Vec::new();
        components.push(string_of(url));
        let audio_at = audio_url_chars(url);
        components.push(string_of(&audio_at));
        proof {
            assert(components.deep_view() =~= seq![url@, audio_url(url@)]);
        }
        SupportedMedia { components, media_type: MediaType::RedditVideoWithAudio }
    } else {
        single(MediaType::RedditVideoWithoutAudio, url)
    }
}

/// The URL to probe for the audio track of the hosted video at `url`:
/// `None` where the video's file name says that it has no sound.
pub fn audio_url_of(url: &str) -> (r: Option<String>)
    ensures
        r.deep_view() == audio_probe(url@),
{
    let u = chars_of(url);
    let name = suffix_after_last(&u, '/');
    if video_only(&name) {
        None
    } else {
        let at = audio_url_chars(&u);
        Some(string_of(&at))
    }
}

/// Get reddit video information and optionally the audio track if it exists.
/// `audio` is what the probe of the video's audio URL found: `Some(true)`
/// where the content at that URL is an mp4 video, `Some(false)` where it is
/// something else, `None` where the probe gave no answer. The video has two
/// components, itself and its audio, where its file name allows sound and
/// the probe found it; otherwise it has one.
pub fn get_reddit_video(url: &str, audio: Option<bool>) -> (m: SupportedMedia)
    ensures
        m.deep_view() == reddit_video(url@, audio),
{
    let u = chars_of(url);
    reddit_video_chars(&u, audio)
}

/// The URL of the video itself, for a URL on the video subdomain.
fn video_source_chars(url: &Vec<char>, data: &PostData) -> (r: Option<Vec<char>>)
    ensures
        match r {
            Some(v) => video_source(url@, fallback_url(data)) == Some(v@),
            None => video_source(url@, fallback_url(data)) is None,
        },
{
    if !holds(url, REDDIT_VIDEO_SUBDOMAIN) {
        None
    } else if ends(url, MP4_EXTENSION) {
        Some(slice_whole(url))
    } else {
        match &data.media {
            Some(m) => match &m.reddit_video {
                Some(v) => {
                    let fallback = chars_of(v.fallback_url.as_str());
                    let query = chars_of(REDDIT_FALLBACK_QUERY);
                    let nothing: Vec<char> = Vec::new();
                    proof {
                                        assert(nothing@ =~= Seq::<char>::empty());
                    }
                    Some(replace(&fallback, &query, &nothing))
                },
                None => None,
            },
            None => None,
        }
    }
}

/// A copy of `s`.
fn slice_whole(s: &Vec<char>) -> (r: Vec<char>)
    ensures
        r@ == s@,
{
    let r = slice_of(s, 0, s.len());
    proof {
        assert(s@.subrange(0, s@.len() as int) =~= s@);
    }
    r
}

/// Adds the media of the platform's video subdomain.
fn add_reddit_videos(
    media: &mut Vec<SupportedMedia>,
    url: &Vec<char>,
    data: &PostData,
    audio: Option<bool>,
)
    ensures
        final(media).deep_view() == old(media).deep_view() + reddit_videos(
            url@,
            fallback_url(data),
            audio,
        ),
{
    match video_source_chars(url, data) {
        Some(v) => {
            push_media(media, reddit_video_chars(&v, audio));
        },
        None => {
            proof {
                assert(media.deep_view() + Seq::<MediaSpec>::empty() =~= media.deep_view());
            }
        },
    }
}

/// The URL of the gallery image with the media ID `id`.
fn gallery_image(id: &str) -> (r: String)
    ensures
        r@ == gallery_image_url(id@),
{
    let mut r = chars_of("https://");
    append(&mut r, &chars_of(REDDIT_IMAGE_SUBDOMAIN));
    append(&mut r, &chars_of("/"));
    append(&mut r, &chars_of(id));
    append(&mut r, &chars_of("."));
    append(&mut r, &chars_of(JPG_EXTENSION));
    string_of(&r)
}

/// Adds the media of a gallery post.
fn add_reddit_gallery(media: &mut Vec<SupportedMedia>, url: &Vec<char>, data: &PostData)
    ensures
        final(media).deep_view() == old(media).deep_view() + reddit_gallery(
            url@,
            gallery_ids(data),
        ),
{
    let ghost before = media.deep_view();
    proof {
        assert(before + Seq::<MediaSpec>::empty() =~= before);
    }
    if holds(url, REDDIT_DOMAIN) && holds(url, REDDIT_GALLERY_PATH) {
        match &data.gallery_data {
            Some(gallery) => {
                let ghost ids = gallery_ids(data)->0;
                let mut image_urls: Vec<String> = Vec::new();
                let mut i: usize = 0;
                while i < gallery.items.len()
                    invariant
                        i <= gallery.items.len(),
                        ids == Seq::new(
                            gallery.items@.len(),
                            |k: int| gallery.items@[k].media_id@,
                        ),
                        image_urls.deep_view() =~= Seq::new(
                            i as nat,
                            |k: int| gallery_image_url(ids[k]),
                        ),
                    decreases gallery.items.len() - i,
                {
                    let ghost so_far = image_urls.deep_view();
                    let image = gallery_image(gallery.items[i].media_id.as_str());
                    let ghost added = image@;
                    image_urls.push(image);
                    proof {
                        assert(ids[i as int] == gallery.items@[i as int].media_id@);
                        assert(image_urls.deep_view() =~= so_far.push(added));
                    }
                    i += 1;
                }
                let some = image_urls.len() > 0;
                push_when(
                    media,
                    some,
                    SupportedMedia { components: image_urls, media_type: MediaType::RedditImage },
                );
            },
            None => {},
        }
    }
}

/// The address of the lookup API for the gif behind `url`.
pub fn gfy_api_url_of(url: &str) -> (r: String)
    ensures
        r@ == gfy_api_url(url@),
{
    let u = chars_of(url);
    let mut r = if holds(&u, GFYCAT_DOMAIN) {
        chars_of(GFYCAT_API_PREFIX)
    } else {
        chars_of(REDGIFS_API_PREFIX)
    };
    append(&mut r, &chars_of("/"));
    append(&mut r, &suffix_after_last(&u, '/'));
    string_of(&r)
}

/// Convert Gfycat/Redgifs GIFs into mp4 URLs for download. `status` is the
/// HTTP status of the lookup API's answer, `data` its body where it could be
/// read. A gif that is gone is answered with another status than 200, and
/// gives nothing.
pub fn gfy_to_mp4(status: u16, data: Option<GfyData>) -> (r: Option<String>)
    ensures
        r.deep_view() == gfy_mp4_url(status, data),
{
    match data {
        Some(d) => if status == 200 {
            Some(d.gfy_item.mp4_url)
        } else {
            None
        },
        None => None,
    }
}

/// Adds the media of the gif host.
fn add_gfycat(media: &mut Vec<SupportedMedia>, url: &Vec<char>, gfy_mp4: &Option<String>)
    ensures
        final(media).deep_view() == old(media).deep_view() + gfycat(url@, gfy_mp4.deep_view()),
{
    proof {
        assert(media.deep_view() + Seq::<MediaSpec>::empty() =~= media.deep_view());
    }
    if holds(url, GFYCAT_DOMAIN) {
        if ends(url, MP4_EXTENSION) {
            push_media(media, single(MediaType::GfycatGif, url));
        } else {
            match gfy_mp4 {
                Some(found) => {
                    let at = chars_of(found.as_str());
                    push_media(media, single(MediaType::GfycatGif, &at));
                },
                None => {},
            }
        }
    }
}

/// Whether `url` names one of the gif CDN's media subdomains.
fn giphy_media_host(url: &Vec<char>) -> (r: bool)
    ensures
        r == on_giphy_media(url@),
{
    holds(url, GIPHY_MEDIA_SUBDOMAIN) || holds(url, GIPHY_MEDIA_SUBDOMAIN_0) || holds(
        url,
        GIPHY_MEDIA_SUBDOMAIN_1,
    ) || holds(url, GIPHY_MEDIA_SUBDOMAIN_2) || holds(url, GIPHY_MEDIA_SUBDOMAIN_3) || holds(
        url,
        GIPHY_MEDIA_SUBDOMAIN_4,
    )
}

/// Adds the media of the gif CDN.
fn add_giphy(media: &mut Vec<SupportedMedia>, url: &Vec<char>, path: &Vec<char>)
    ensures
        final(media).deep_view() == old(media).deep_view() + giphy(url@, path@),
{
    proof {
        assert(media.deep_view() + Seq::<MediaSpec>::empty() =~= media.deep_view());
    }
    if holds(url, GIPHY_DOMAIN) {
        if giphy_media_host(url) {
            let known = ends(url, GIF_EXTENSION) || ends(url, MP4_EXTENSION) || ends(
                url,
                GIFV_EXTENSION,
            );
            push_when(media, known, single(MediaType::GiphyGif, url));
        } else {
            let mut at = chars_of("https://");
            append(&mut at, &chars_of(GIPHY_MEDIA_SUBDOMAIN));
            append(&mut at, &chars_of("/media/"));
            append(&mut at, &suffix_after_last(path, '-'));
            append(&mut at, &chars_of(".gif"));
            push_media(media, single(MediaType::GiphyGif, &at));
        }
    }
}

/// Adds the media of the image host.
fn add_imgur(media: &mut Vec<SupportedMedia>, url: &Vec<char>)
    ensures
        final(media).deep_view() == old(media).deep_view() + imgur(url@),
{
    if holds(url, IMGUR_DOMAIN) && holds(url, IMGUR_SUBDOMAIN) {
        let gifv = ends(url, GIFV_EXTENSION);
        let image = ends(url, PNG_EXTENSION) || ends(url, JPG_EXTENSION);
        let from = chars_of(GIFV_EXTENSION);
        let mut video = if gifv {
            slice_of(url, 0, url.len() - from.len())
        } else {
            Vec::new()
        };
        append(&mut video, &chars_of(MP4_EXTENSION));
        let ghost before = media.deep_view();
        push_when(media, gifv, single(MediaType::ImgurGif, &video));
        push_when(media, image, single(MediaType::ImgurImage, url));
        proof {
            let a = only_when(gifv, one_component(MediaType::ImgurGif, video@));
            let b = only_when(image, one_component(MediaType::ImgurImage, url@));
            assert((before + a) + b =~= before + (a + b));
        }
    } else {
        proof {
            assert(media.deep_view() + Seq::<MediaSpec>::empty() =~= media.deep_view());
        }
    }
}

/// Adds the media of the newer gif host.
fn add_redgifs(media: &mut Vec<SupportedMedia>, url: &Vec<char>)
    ensures
        final(media).deep_view() == old(media).deep_view() + redgifs(url@),
{
    let found = holds(url, REDGIFS_DOMAIN);
    push_when(media, found, single(MediaType::RedgifsVideo, url));
}

/// The media behind a URL that has been normalized: `url` is the URL up to
/// the end of its path, `path` the path alone. `audio` and `gfy_mp4` are the
/// answers to the lookups that `lookups_for_url` names for the same URL and
/// post; where it names none, they are not read.
pub fn media_for_url(
    url: &str,
    path: &str,
    data: &PostData,
    audio: Option<bool>,
    gfy_mp4: Option<String>,
) -> (media: Vec<SupportedMedia>)
    ensures
        media.deep_view() == media_of(
            url@,
            path@,
            fallback_url(data),
            gallery_ids(data),
            audio,
            gfy_mp4.deep_view(),
        ),
        all_well_formed(media.deep_view()),
{
    let u = chars_of(url);
    let p = chars_of(path);
    let mut media: Vec<SupportedMedia> = Vec::new();
    let ghost empty = media.deep_view();
    add_reddit_images(&mut media, &u);
    add_reddit_videos(&mut media, &u, data, audio);
    add_reddit_gallery(&mut media, &u, data);
    add_gfycat(&mut media, &u, &gfy_mp4);
    add_redgifs(&mut media, &u);
    add_giphy(&mut media, &u, &p);
    add_imgur(&mut media, &u);
    proof {
        let expected = media_of(
            url@,
            path@,
            fallback_url(data),
            gallery_ids(data),
            audio,
            gfy_mp4.deep_view(),
        );
        assert(empty =~= Seq::<MediaSpec>::empty());
        assert(media.deep_view() =~= expected);
        lemma_media_are_well_formed(
            url@,
            path@,
            fallback_url(data),
            gallery_ids(data),
            audio,
            gfy_mp4.deep_view(),
        );
    }
    media
}

/// Check if a particular URL contains supported media: the media of a post,
/// in the order of the hosts' rules. A post without a URL, or with one that
/// cannot be read, has none. `audio` and `gfy_mp4` are the answers to the
/// lookups that `lookups_for` names for the post.
pub fn get_media(data: &PostData, audio: Option<bool>, gfy_mp4: Option<String>) -> (media: Vec<
    SupportedMedia,
>)
    ensures
        media.deep_view() == post_media(data, audio, gfy_mp4.deep_view()),
        all_well_formed(media.deep_view()),
{
    match &data.url {
        Some(link) => match split_url(link.as_str()) {
            Some(parts) => media_for_url(
                parts.0.as_str(),
                parts.1.as_str(),
                data,
                audio,
                gfy_mp4,
            ),
            None => Vec::new(),
        },
        None => Vec::new(),
    }
}

/// The requests whose answers the media of a post depend on.
#[derive(Debug, Clone)]
pub struct Lookups {
    /// The URL whose content type tells whether a hosted video has sound.
    pub audio_probe: Option<String>,
    /// The address of the gif host's lookup API for the post's gif.
    pub gfy_api: Option<String>,
}

/// The requests to make before the media behind a normalized URL can be
/// told.
pub fn lookups_for_url(url: &str, data: &PostData) -> (r: Lookups)
    ensures
        r.audio_probe.deep_view() == audio_lookup(url@, fallback_url(data)),
        r.gfy_api.deep_view() == gfy_lookup(url@),
{
    let u = chars_of(url);
    let audio_probe = match video_source_chars(&u, data) {
        Some(v) => {
            let name = suffix_after_last(&v, '/');
            if video_only(&name) {
                None
            } else {
                Some(string_of(&audio_url_chars(&v)))
            }
        },
        None => None,
    };
    let gfy_api = if holds(&u, GFYCAT_DOMAIN) && !ends(&u, MP4_EXTENSION) {
        Some(gfy_api_url_of(url))
    } else {
        None
    };
    Lookups { audio_probe, gfy_api }
}

/// The requests to make before the media of a post can be told: the probe of
/// an audio URL, whose answer `get_media` takes as `audio`, and the lookup of
/// a gif, whose answer it takes as `gfy_mp4`.
pub fn lookups_for(data: &PostData) -> (r: Lookups)
    ensures
        r.audio_probe.deep_view() == post_audio_lookup(data),
        r.gfy_api.deep_view() == post_gfy_lookup(data),
{
    match &data.url {
        Some(link) => match split_url(link.as_str()) {
            Some(parts) => lookups_for_url(parts.0.as_str(), data),
            None => Lookups { audio_probe: None, gfy_api: None },
        },
        None => Lookups { audio_probe: None, gfy_api: None },
    }
}

} // verus!
