//! The media that posts link to: which hosts are supported, and what the
//! media behind a post's URL are, as values.

use vstd::prelude::*;

use crate::structures::{GfyData, PostData};
use crate::text::{
    after_last, has_substring, has_suffix, lemma_last_index_of, replace_all, through_last,
};
use crate::wrappers::url_parts;

verus! {

pub const JPG_EXTENSION: &'static str = "jpg";

pub const PNG_EXTENSION: &'static str = "png";

pub const GIF_EXTENSION: &'static str = "gif";

pub const GIFV_EXTENSION: &'static str = "gifv";

pub const MP4_EXTENSION: &'static str = "mp4";

pub const REDDIT_DOMAIN: &'static str = "reddit.com";

pub const REDDIT_IMAGE_SUBDOMAIN: &'static str = "i.redd.it";

pub const REDDIT_VIDEO_SUBDOMAIN: &'static str = "v.redd.it";

pub const REDDIT_GALLERY_PATH: &'static str = "gallery";

/// The file name under which a hosted video's audio track is served.
pub const REDDIT_AUDIO_FILE: &'static str = "DASH_audio.mp4";

/// What a fallback URL carries behind the video's own address.
pub const REDDIT_FALLBACK_QUERY: &'static str = "?source=fallback";

pub const IMGUR_DOMAIN: &'static str = "imgur.com";

pub const IMGUR_SUBDOMAIN: &'static str = "i.imgur.com";

pub const GFYCAT_DOMAIN: &'static str = "gfycat.com";

pub const GFYCAT_API_PREFIX: &'static str = "https://api.gfycat.com/v1/gfycats";

pub const REDGIFS_DOMAIN: &'static str = "redgifs.com";

pub const REDGIFS_API_PREFIX: &'static str = "https://api.redgifs.com/v1/gfycats";

pub const GIPHY_DOMAIN: &'static str = "giphy.com";

pub const GIPHY_MEDIA_SUBDOMAIN: &'static str = "media.giphy.com";

pub const GIPHY_MEDIA_SUBDOMAIN_0: &'static str = "media0.giphy.com";

pub const GIPHY_MEDIA_SUBDOMAIN_1: &'static str = "media1.giphy.com";

pub const GIPHY_MEDIA_SUBDOMAIN_2: &'static str = "media2.giphy.com";

pub const GIPHY_MEDIA_SUBDOMAIN_3: &'static str = "media3.giphy.com";

pub const GIPHY_MEDIA_SUBDOMAIN_4: &'static str = "media4.giphy.com";

/// Media Types Supported
#[derive(Debug, Clone, Copy, PartialEq, Eq, Structural)]
pub enum MediaType {
    RedditImage,
    RedditGif,
    RedditVideoWithAudio,
    RedditVideoWithoutAudio,
    GfycatGif,
    RedgifsVideo,
    GiphyGif,
    ImgurImage,
    ImgurGif,
}

/// Information about supported media for downloading
#[derive(Debug, Clone)]
pub struct SupportedMedia {
    /// The URLs to fetch, in order. One for every kind of media but a
    /// gallery, which has one for each image, and a hosted video with sound,
    /// which has the video first and the audio second.
    pub components: Vec<String>,
    pub media_type: MediaType,
}

/// A supported media as a value: the kind, and the URLs as texts.
pub struct MediaSpec {
    pub components: Seq<Seq<char>>,
    pub media_type: MediaType,
}

impl MediaSpec {
    /// A media has components: two where it is a video with audio, one for
    /// every other kind but an image, which has one for each image of its
    /// gallery.
    pub open spec fn well_formed(self) -> bool {
        match self.media_type {
            MediaType::RedditVideoWithAudio => self.components.len() == 2,
            MediaType::RedditImage => self.components.len() >= 1,
            _ => self.components.len() == 1,
        }
    }
}

impl DeepView for SupportedMedia {
    type V = MediaSpec;

    open spec fn deep_view(&self) -> MediaSpec {
        MediaSpec { components: self.components.deep_view(), media_type: self.media_type }
    }
}

/// Every media of `list` is well formed.
pub open spec fn all_well_formed(list: Seq<MediaSpec>) -> bool {
    forall|i: int| 0 <= i < list.len() ==> (#[trigger] list[i]).well_formed()
}

/// The URL that a post declares.
pub open spec fn declared_url(data: &PostData) -> Option<Seq<char>> {
    data.url.deep_view()
}

/// The fallback URL of a post's hosted video.
pub open spec fn fallback_url(data: &PostData) -> Option<Seq<char>> {
    match data.media {
        Some(m) => match m.reddit_video {
            Some(v) => Some(v.fallback_url@),
            None => None,
        },
        None => None,
    }
}

/// The media IDs of a post's gallery, in order.
pub open spec fn gallery_ids(data: &PostData) -> Option<Seq<Seq<char>>> {
    match data.gallery_data {
        Some(g) => Some(Seq::new(g.items@.len(), |i: int| g.items@[i].media_id@)),
        None => None,
    }
}

/// A media of one component.
pub open spec fn one_component(media_type: MediaType, url: Seq<char>) -> MediaSpec {
    MediaSpec { components: seq![url], media_type }
}

/// The media `m` where `cond` holds, none otherwise.
pub open spec fn only_when(cond: bool, m: MediaSpec) -> Seq<MediaSpec> {
    if cond {
        seq![m]
    } else {
        Seq::empty()
    }
}

/// Images and gifs on the platform's image subdomain are taken as they are.
pub open spec fn reddit_images(url: Seq<char>) -> Seq<MediaSpec> {
    if has_substring(url, REDDIT_IMAGE_SUBDOMAIN@) {
        only_when(
            has_suffix(url, JPG_EXTENSION@) || has_suffix(url, PNG_EXTENSION@),
            one_component(MediaType::RedditImage, url),
        ) + only_when(has_suffix(url, GIF_EXTENSION@), one_component(MediaType::RedditGif, url))
    } else {
        Seq::empty()
    }
}

/// The file names under which the platform serves a video that has no sound.
pub open spec fn is_video_only(name: Seq<char>) -> bool {
    name == "DASH_1_2_M"@ || name == "DASH_2_4_M"@ || name == "DASH_4_8_M"@
}

/// Where the audio track of the video at `url` would be: the video's URL
/// with its last path segment replaced by the audio file's name.
pub open spec fn audio_url(url: Seq<char>) -> Seq<char> {
    through_last(url, '/') + REDDIT_AUDIO_FILE@
}

/// The URL to probe for an audio track, for a video that may have one.
pub open spec fn audio_probe(url: Seq<char>) -> Option<Seq<char>> {
    if is_video_only(after_last(url, '/')) {
        None
    } else {
        Some(audio_url(url))
    }
}

/// The media of the hosted video at `url`, where `audio` is what the probe
/// of its audio URL found: `Some(true)` for a video track, anything else for
/// none.
pub open spec fn reddit_video(url: Seq<char>, audio: Option<bool>) -> MediaSpec {
    if audio_probe(url) is Some && audio == Some(true) {
        MediaSpec {
            components: seq![url, audio_url(url)],
            media_type: MediaType::RedditVideoWithAudio,
        }
    } else {
        one_component(MediaType::RedditVideoWithoutAudio, url)
    }
}

/// The URL of the video itself, for a URL on the platform's video
/// subdomain: the URL where it ends in the video extension, else the post's
/// fallback URL without its query.
pub open spec fn video_source(url: Seq<char>, fallback: Option<Seq<char>>) -> Option<Seq<char>> {
    if !has_substring(url, REDDIT_VIDEO_SUBDOMAIN@) {
        None
    } else if has_suffix(url, MP4_EXTENSION@) {
        Some(url)
    } else {
        match fallback {
            Some(f) => Some(replace_all(f, REDDIT_FALLBACK_QUERY@, Seq::empty())),
            None => None,
        }
    }
}

/// Videos on the platform's video subdomain.
pub open spec fn reddit_videos(
    url: Seq<char>,
    fallback: Option<Seq<char>>,
    audio: Option<bool>,
) -> Seq<MediaSpec> {
    match video_source(url, fallback) {
        Some(v) => seq![reddit_video(v, audio)],
        None => Seq::empty(),
    }
}

/// The URL of the gallery image with the media ID `id`.
pub open spec fn gallery_image_url(id: Seq<char>) -> Seq<char> {
    "https://"@ + REDDIT_IMAGE_SUBDOMAIN@ + "/"@ + id + "."@ + JPG_EXTENSION@
}

/// A gallery post gives one media with an image for each of its items; one
/// without items gives none.
pub open spec fn reddit_gallery(url: Seq<char>, ids: Option<Seq<Seq<char>>>) -> Seq<MediaSpec> {
    if has_substring(url, REDDIT_DOMAIN@) && has_substring(url, REDDIT_GALLERY_PATH@) {
        match ids {
            Some(ids) => only_when(
                ids.len() > 0,
                MediaSpec {
                    components: Seq::new(ids.len(), |i: int| gallery_image_url(ids[i])),
                    media_type: MediaType::RedditImage,
                },
            ),
            None => Seq::empty(),
        }
    } else {
        Seq::empty()
    }
}

/// The address of the lookup API for the gif behind `url`: the API of the
/// host that the URL names, and the URL's last path segment as the key.
pub open spec fn gfy_api_url(url: Seq<char>) -> Seq<char> {
    (if has_substring(url, GFYCAT_DOMAIN@) {
        GFYCAT_API_PREFIX@
    } else {
        REDGIFS_API_PREFIX@
    }) + "/"@ + after_last(url, '/')
}

/// The lookup that a URL of the gif host needs: none where it is a direct
/// link to the video.
pub open spec fn gfy_lookup(url: Seq<char>) -> Option<Seq<char>> {
    if has_substring(url, GFYCAT_DOMAIN@) && !has_suffix(url, MP4_EXTENSION@) {
        Some(gfy_api_url(url))
    } else {
        None
    }
}

/// Gifs of the gif host: a direct link as it is, any other link by the
/// URL that the lookup gave, if it gave one.
pub open spec fn gfycat(url: Seq<char>, gfy_mp4: Option<Seq<char>>) -> Seq<MediaSpec> {
    if !has_substring(url, GFYCAT_DOMAIN@) {
        Seq::empty()
    } else if has_suffix(url, MP4_EXTENSION@) {
        seq![one_component(MediaType::GfycatGif, url)]
    } else {
        match gfy_mp4 {
            Some(m) => seq![one_component(MediaType::GfycatGif, m)],
            None => Seq::empty(),
        }
    }
}

/// Links to the newer gif host are kept as they are: the address of the
/// video is looked up when it is fetched.
pub open spec fn redgifs(url: Seq<char>) -> Seq<MediaSpec> {
    only_when(has_substring(url, REDGIFS_DOMAIN@), one_component(MediaType::RedgifsVideo, url))
}

/// Whether `url` names one of the gif CDN's media subdomains.
pub open spec fn on_giphy_media(url: Seq<char>) -> bool {
    ||| has_substring(url, GIPHY_MEDIA_SUBDOMAIN@)
    ||| has_substring(url, GIPHY_MEDIA_SUBDOMAIN_0@)
    ||| has_substring(url, GIPHY_MEDIA_SUBDOMAIN_1@)
    ||| has_substring(url, GIPHY_MEDIA_SUBDOMAIN_2@)
    ||| has_substring(url, GIPHY_MEDIA_SUBDOMAIN_3@)
    ||| has_substring(url, GIPHY_MEDIA_SUBDOMAIN_4@)
}

/// The media URL of the gif whose post has the path `path`: the ID is what
/// follows the path's last hyphen.
pub open spec fn giphy_media_url(path: Seq<char>) -> Seq<char> {
    "https://"@ + GIPHY_MEDIA_SUBDOMAIN@ + "/media/"@ + after_last(path, '-') + ".gif"@
}

/// Gifs of the gif CDN: a media link as it is where it ends in a known
/// extension, a post link by the media URL built from its ID.
pub open spec fn giphy(url: Seq<char>, path: Seq<char>) -> Seq<MediaSpec> {
    if !has_substring(url, GIPHY_DOMAIN@) {
        Seq::empty()
    } else if on_giphy_media(url) {
        only_when(
            has_suffix(url, GIF_EXTENSION@) || has_suffix(url, MP4_EXTENSION@) || has_suffix(
                url,
                GIFV_EXTENSION@,
            ),
            one_component(MediaType::GiphyGif, url),
        )
    } else {
        seq![one_component(MediaType::GiphyGif, giphy_media_url(path))]
    }
}

/// `url`, which ends in the extension `from`, with the extension `to` in its
/// place.
pub open spec fn with_extension(url: Seq<char>, from: Seq<char>, to: Seq<char>) -> Seq<char> {
    url.subrange(0, url.len() - from.len()) + to
}

/// Direct links to the image host: a gifv as the mp4 behind it, an image
/// as it is. Albums and galleries of this host give nothing.
pub open spec fn imgur(url: Seq<char>) -> Seq<MediaSpec> {
    if has_substring(url, IMGUR_DOMAIN@) && has_substring(url, IMGUR_SUBDOMAIN@) {
        only_when(
            has_suffix(url, GIFV_EXTENSION@),
            one_component(MediaType::ImgurGif, with_extension(url, GIFV_EXTENSION@, MP4_EXTENSION@)),
        ) + only_when(
            has_suffix(url, PNG_EXTENSION@) || has_suffix(url, JPG_EXTENSION@),
            one_component(MediaType::ImgurImage, url),
        )
    } else {
        Seq::empty()
    }
}

/// The media behind a normalized URL: what each host's rule gives, the rules
/// taken in a fixed order. `path` is the URL's path, `fallback` and `ids`
/// are the post's fallback URL and gallery, `audio` and `gfy_mp4` what the
/// audio probe and the gif host's lookup answered.
pub open spec fn media_of(
    url: Seq<char>,
    path: Seq<char>,
    fallback: Option<Seq<char>>,
    ids: Option<Seq<Seq<char>>>,
    audio: Option<bool>,
    gfy_mp4: Option<Seq<char>>,
) -> Seq<MediaSpec> {
    reddit_images(url) + reddit_videos(url, fallback, audio) + reddit_gallery(url, ids) + gfycat(
        url,
        gfy_mp4,
    ) + redgifs(url) + giphy(url, path) + imgur(url)
}

/// The media of a post: none where it declares no URL or one that cannot be
/// read as a URL with a path.
pub open spec fn post_media(
    data: &PostData,
    audio: Option<bool>,
    gfy_mp4: Option<Seq<char>>,
) -> Seq<MediaSpec> {
    match declared_url(data) {
        Some(link) => match url_parts(link) {
            Some(parts) => media_of(
                parts.0,
                parts.1,
                fallback_url(data),
                gallery_ids(data),
                audio,
                gfy_mp4,
            ),
            None => Seq::empty(),
        },
        None => Seq::empty(),
    }
}

/// What the lookup API's answer says: the mp4 URL where the status is 200
/// and the answer could be read, nothing otherwise.
pub open spec fn gfy_mp4_url(status: u16, data: Option<GfyData>) -> Option<Seq<char>> {
    match data {
        Some(d) => if status == 200 {
            Some(d.gfy_item.mp4_url@)
        } else {
            None
        },
        None => None,
    }
}

/// The audio URL to probe for a normalized URL: that of its video, where it
/// is a hosted video that may have sound.
pub open spec fn audio_lookup(url: Seq<char>, fallback: Option<Seq<char>>) -> Option<Seq<char>> {
    match video_source(url, fallback) {
        Some(v) => audio_probe(v),
        None => None,
    }
}

/// The audio URL to probe for a post.
pub open spec fn post_audio_lookup(data: &PostData) -> Option<Seq<char>> {
    match declared_url(data) {
        Some(link) => match url_parts(link) {
            Some(parts) => audio_lookup(parts.0, fallback_url(data)),
            None => None,
        },
        None => None,
    }
}

/// The lookup API address to ask for a post.
pub open spec fn post_gfy_lookup(data: &PostData) -> Option<Seq<char>> {
    match declared_url(data) {
        Some(link) => match url_parts(link) {
            Some(parts) => gfy_lookup(parts.0),
            None => None,
        },
        None => None,
    }
}

/// A post that declares no URL has no media, whatever the lookups answer.
pub proof fn lemma_no_url_no_media(
    data: &PostData,
    audio: Option<bool>,
    gfy_mp4: Option<Seq<char>>,
)
    requires
        declared_url(data) is None,
    ensures
        post_media(data, audio, gfy_mp4) == Seq::<MediaSpec>::empty(),
        post_audio_lookup(data) is None,
        post_gfy_lookup(data) is None,
{
}

/// Where no audio probe is named for a URL, its media do not depend on the
/// probe's answer; where no gif lookup is named, they do not depend on that
/// lookup's answer.
pub proof fn lemma_unasked_answers_are_not_read(
    url: Seq<char>,
    path: Seq<char>,
    fallback: Option<Seq<char>>,
    ids: Option<Seq<Seq<char>>>,
    audio: Option<bool>,
    other_audio: Option<bool>,
    gfy_mp4: Option<Seq<char>>,
    other_gfy_mp4: Option<Seq<char>>,
)
    ensures
        audio_lookup(url, fallback) is None ==> media_of(url, path, fallback, ids, audio, gfy_mp4)
            == media_of(url, path, fallback, ids, other_audio, gfy_mp4),
        gfy_lookup(url) is None ==> media_of(url, path, fallback, ids, audio, gfy_mp4)
            == media_of(url, path, fallback, ids, audio, other_gfy_mp4),
{
}

/// A hosted video whose audio URL does not probe as a video has exactly one
/// component, the video, and is a video without audio.
pub proof fn lemma_video_without_audio(
    url: Seq<char>,
    fallback: Option<Seq<char>>,
    audio: Option<bool>,
)
    requires
        has_substring(url, REDDIT_VIDEO_SUBDOMAIN@),
        has_suffix(url, MP4_EXTENSION@),
        audio != Some(true),
    ensures
        reddit_videos(url, fallback, audio) == seq![
            one_component(MediaType::RedditVideoWithoutAudio, url),
        ],
        reddit_videos(url, fallback, audio)[0].components.len() == 1,
        reddit_videos(url, fallback, audio)[0].media_type == MediaType::RedditVideoWithoutAudio,
{
}

/// A link that ends in the video extension does not name a video that is
/// served without sound: its audio URL is probed.
pub proof fn lemma_mp4_link_is_probed(url: Seq<char>)
    requires
        has_suffix(url, MP4_EXTENSION@),
    ensures
        audio_probe(url) == Some(audio_url(url)),
{
    reveal_strlit("mp4");
    reveal_strlit("DASH_1_2_M");
    reveal_strlit("DASH_2_4_M");
    reveal_strlit("DASH_4_8_M");
    lemma_last_index_of(url, '/');
    let n = url.len() as int;
    let tail = url.subrange(n - 3, n);
    assert(tail == MP4_EXTENSION@);
    assert(tail[2] == url[n - 1]);
    assert(url[n - 1] == '4');
    let name = after_last(url, '/');
    assert(name.len() > 0);
    assert(name[name.len() - 1] == url[n - 1]);
    assert("DASH_1_2_M"@[9] == 'M');
    assert("DASH_2_4_M"@[9] == 'M');
    assert("DASH_4_8_M"@[9] == 'M');
}

/// A direct link to a hosted video whose audio URL probes as a video has
/// exactly two components, the video first and the audio second, and is a
/// video with audio.
pub proof fn lemma_direct_video_with_audio(url: Seq<char>, fallback: Option<Seq<char>>)
    requires
        has_substring(url, REDDIT_VIDEO_SUBDOMAIN@),
        has_suffix(url, MP4_EXTENSION@),
    ensures
        reddit_videos(url, fallback, Some(true)) == seq![
            MediaSpec {
                components: seq![url, audio_url(url)],
                media_type: MediaType::RedditVideoWithAudio,
            },
        ],
{
    lemma_mp4_link_is_probed(url);
}

/// A hosted video whose audio URL probes as a video has exactly two
/// components, the video first and the audio second, and is a video with
/// audio.
pub proof fn lemma_video_with_audio(url: Seq<char>, fallback: Option<Seq<char>>)
    requires
        video_source(url, fallback) is Some,
        audio_lookup(url, fallback) is Some,
    ensures
        reddit_videos(url, fallback, Some(true)) == seq![
            MediaSpec {
                components: seq![
                    video_source(url, fallback)->0,
                    audio_lookup(url, fallback)->0,
                ],
                media_type: MediaType::RedditVideoWithAudio,
            },
        ],
        audio_lookup(url, fallback)->0 == audio_url(video_source(url, fallback)->0),
{
}

/// A gallery post with items has one media: an image for each item, in the
/// order of the items, each at the image subdomain under its media ID.
pub proof fn lemma_gallery_images(url: Seq<char>, ids: Seq<Seq<char>>)
    requires
        has_substring(url, REDDIT_DOMAIN@),
        has_substring(url, REDDIT_GALLERY_PATH@),
        ids.len() > 0,
    ensures
        reddit_gallery(url, Some(ids)).len() == 1,
        reddit_gallery(url, Some(ids))[0].media_type == MediaType::RedditImage,
        reddit_gallery(url, Some(ids))[0].components.len() == ids.len(),
        forall|i: int|
            0 <= i < ids.len() ==> #[trigger] reddit_gallery(url, Some(ids))[0].components[i]
                == "https://"@ + REDDIT_IMAGE_SUBDOMAIN@ + "/"@ + ids[i] + "."@ + JPG_EXTENSION@,
{
}

/// A link to the gif host that is no direct link gives no media where the
/// lookup finds nothing; and a lookup answered with another status than 200
/// finds nothing.
pub proof fn lemma_gif_not_found(url: Seq<char>, status: u16, data: Option<GfyData>)
    requires
        !has_suffix(url, MP4_EXTENSION@),
    ensures
        gfycat(url, None) == Seq::<MediaSpec>::empty(),
        status != 200 ==> gfy_mp4_url(status, data) is None,
{
}

/// Lists of well-formed media join to a list of well-formed media.
proof fn lemma_well_formed_joins(a: Seq<MediaSpec>, b: Seq<MediaSpec>)
    requires
        all_well_formed(a),
        all_well_formed(b),
    ensures
        all_well_formed(a + b),
{
    assert forall|i: int| 0 <= i < (a + b).len() implies (#[trigger] (a + b)[i]).well_formed() by {
        if i < a.len() {
            assert((a + b)[i] == a[i]);
        } else {
            assert((a + b)[i] == b[i - a.len()]);
        }
    }
}

/// Every media that resolution gives is well formed, whatever the URL, the
/// post and the answers of the lookups.
pub proof fn lemma_media_are_well_formed(
    url: Seq<char>,
    path: Seq<char>,
    fallback: Option<Seq<char>>,
    ids: Option<Seq<Seq<char>>>,
    audio: Option<bool>,
    gfy_mp4: Option<Seq<char>>,
)
    ensures
        all_well_formed(media_of(url, path, fallback, ids, audio, gfy_mp4)),
{
    let images = reddit_images(url);
    let videos = reddit_videos(url, fallback, audio);
    let gallery = reddit_gallery(url, ids);
    let gifs = gfycat(url, gfy_mp4);
    let clips = redgifs(url);
    let cdn = giphy(url, path);
    let hosted = imgur(url);
    assert(all_well_formed(images));
    assert(all_well_formed(videos));
    assert(all_well_formed(gallery));
    assert(all_well_formed(gifs));
    assert(all_well_formed(clips));
    assert(all_well_formed(cdn));
    assert(all_well_formed(hosted));
    lemma_well_formed_joins(images, videos);
    lemma_well_formed_joins(images + videos, gallery);
    lemma_well_formed_joins(images + videos + gallery, gifs);
    lemma_well_formed_joins(images + videos + gallery + gifs, clips);
    lemma_well_formed_joins(images + videos + gallery + gifs + clips, cdn);
    lemma_well_formed_joins(images + videos + gallery + gifs + clips + cdn, hosted);
}

} // verus!
