use reddsaver::media::{MediaType, SupportedMedia};
use reddsaver::resolve::{audio_url_of, get_media, get_reddit_video, gfy_api_url_of, gfy_to_mp4, lookups_for, lookups_for_url, media_for_url};
use reddsaver::structures::{
    GalleryItem, GalleryItems, GfyData, GfyItem, PostData, PostMedia, RedditVideo,
};

fn post(url: Option<&str>) -> PostData {
    PostData {
        subreddit: String::from("aww"),
        id: String::from("abc"),
        score: 1,
        thumbnail: None,
        subreddit_id: String::from("t5_2qh1o"),
        saved: true,
        permalink: String::from("/r/aww/comments/abc"),
        name: String::from("t3_abc"),
        url: url.map(String::from),
        title: Some(String::from("A title")),
        gallery_data: None,
        is_video: None,
        media: None,
    }
}

fn with_fallback(url: &str, fallback: &str) -> PostData {
    let mut data = post(Some(url));
    data.media = Some(PostMedia {
        reddit_video: Some(RedditVideo { fallback_url: String::from(fallback), is_gif: false }),
    });
    data
}

fn with_gallery(url: &str, ids: &[&str]) -> PostData {
    let mut data = post(Some(url));
    let mut items = Vec::new();
    for (number, id) in ids.iter().enumerate() {
        items.push(GalleryItem { media_id: String::from(*id), id: number as i64 });
    }
    data.gallery_data = Some(GalleryItems { items });
    data
}

fn resolve(data: &PostData) -> Vec<SupportedMedia> {
    get_media(data, None, None)
}

fn assert_single(media: &[SupportedMedia], kind: MediaType, url: &str) {
    assert_eq!(media.len(), 1);
    assert_eq!(media[0].media_type, kind);
    assert_eq!(media[0].components, vec![String::from(url)]);
}

#[test]
fn post_without_url_has_no_media() {
    let data = post(None);
    assert!(get_media(&data, Some(true), Some(String::from("https://x/y.mp4"))).is_empty());
    let lookups = lookups_for(&data);
    assert_eq!(lookups.audio_probe, None);
    assert_eq!(lookups.gfy_api, None);
}

#[test]
fn text_that_is_no_url_has_no_media() {
    assert!(resolve(&post(Some("i.redd.it/abc.jpg"))).is_empty());
    assert!(resolve(&post(Some(""))).is_empty());
}

#[test]
fn url_that_cannot_be_a_base_has_no_media() {
    assert!(resolve(&post(Some("mailto:i.redd.it/abc.jpg"))).is_empty());
}

#[test]
fn unsupported_host_has_no_media() {
    assert!(resolve(&post(Some("https://example.com/picture.jpg"))).is_empty());
}

#[test]
fn reddit_image_is_taken_as_it_is() {
    assert_single(
        &resolve(&post(Some("https://i.redd.it/abc.jpg"))),
        MediaType::RedditImage,
        "https://i.redd.it/abc.jpg",
    );
    assert_single(
        &resolve(&post(Some("https://i.redd.it/abc.png"))),
        MediaType::RedditImage,
        "https://i.redd.it/abc.png",
    );
}

#[test]
fn reddit_gif_is_taken_as_it_is() {
    assert_single(
        &resolve(&post(Some("https://i.redd.it/abc.gif"))),
        MediaType::RedditGif,
        "https://i.redd.it/abc.gif",
    );
}

#[test]
fn reddit_image_of_another_extension_is_not_supported() {
    assert!(resolve(&post(Some("https://i.redd.it/abc.webp"))).is_empty());
}

#[test]
fn query_and_fragment_are_dropped() {
    assert_single(
        &resolve(&post(Some("https://i.redd.it/abc.png?width=100&s=1#top"))),
        MediaType::RedditImage,
        "https://i.redd.it/abc.png",
    );
}

#[test]
fn empty_last_path_segment_is_dropped() {
    assert_single(
        &resolve(&post(Some("https://i.redd.it/abc.gif/"))),
        MediaType::RedditGif,
        "https://i.redd.it/abc.gif",
    );
}

#[test]
fn video_whose_audio_probes_as_video_has_two_components() {
    let data = post(Some("https://v.redd.it/xyz/DASH_720.mp4"));
    let lookups = lookups_for(&data);
    assert_eq!(lookups.audio_probe, Some(String::from("https://v.redd.it/xyz/DASH_audio.mp4")));
    assert_eq!(lookups.gfy_api, None);
    let media = get_media(&data, Some(true), None);
    assert_eq!(media.len(), 1);
    assert_eq!(media[0].media_type, MediaType::RedditVideoWithAudio);
    assert_eq!(
        media[0].components,
        vec![
            String::from("https://v.redd.it/xyz/DASH_720.mp4"),
            String::from("https://v.redd.it/xyz/DASH_audio.mp4"),
        ]
    );
}

#[test]
fn video_whose_audio_probes_as_something_else_has_one_component() {
    let data = post(Some("https://v.redd.it/xyz/DASH_720.mp4"));
    assert_single(
        &get_media(&data, Some(false), None),
        MediaType::RedditVideoWithoutAudio,
        "https://v.redd.it/xyz/DASH_720.mp4",
    );
}

#[test]
fn video_whose_probe_gave_no_answer_has_one_component() {
    let data = post(Some("https://v.redd.it/xyz/DASH_720.mp4"));
    assert_single(
        &get_media(&data, None, None),
        MediaType::RedditVideoWithoutAudio,
        "https://v.redd.it/xyz/DASH_720.mp4",
    );
}

#[test]
fn video_link_follows_the_fallback_url() {
    let data =
        with_fallback("https://v.redd.it/xyz", "https://v.redd.it/xyz/DASH_480.mp4?source=fallback");
    let lookups = lookups_for(&data);
    assert_eq!(lookups.audio_probe, Some(String::from("https://v.redd.it/xyz/DASH_audio.mp4")));
    let media = get_media(&data, Some(true), None);
    assert_eq!(media.len(), 1);
    assert_eq!(media[0].media_type, MediaType::RedditVideoWithAudio);
    assert_eq!(
        media[0].components,
        vec![
            String::from("https://v.redd.it/xyz/DASH_480.mp4"),
            String::from("https://v.redd.it/xyz/DASH_audio.mp4"),
        ]
    );
}

#[test]
fn video_link_without_fallback_has_no_media() {
    let data = post(Some("https://v.redd.it/xyz"));
    assert!(get_media(&data, Some(true), None).is_empty());
    assert_eq!(lookups_for(&data).audio_probe, None);
}

#[test]
fn video_only_name_is_not_probed() {
    let data =
        with_fallback("https://v.redd.it/xyz", "https://v.redd.it/xyz/DASH_1_2_M?source=fallback");
    assert_eq!(lookups_for(&data).audio_probe, None);
    assert_single(
        &get_media(&data, Some(true), None),
        MediaType::RedditVideoWithoutAudio,
        "https://v.redd.it/xyz/DASH_1_2_M",
    );
    assert_eq!(audio_url_of("https://v.redd.it/xyz/DASH_2_4_M"), None);
    assert_eq!(audio_url_of("https://v.redd.it/xyz/DASH_4_8_M"), None);
}

#[test]
fn audio_url_replaces_the_last_path_segment() {
    assert_eq!(
        audio_url_of("https://v.redd.it/xyz/DASH_96.mp4"),
        Some(String::from("https://v.redd.it/xyz/DASH_audio.mp4"))
    );
    assert_eq!(audio_url_of("video"), Some(String::from("DASH_audio.mp4")));
}

#[test]
fn get_reddit_video_orders_video_before_audio() {
    let media = get_reddit_video("https://v.redd.it/q/DASH_240.mp4", Some(true));
    assert_eq!(media.media_type, MediaType::RedditVideoWithAudio);
    assert_eq!(media.components.len(), 2);
    assert_eq!(media.components[0], "https://v.redd.it/q/DASH_240.mp4");
    assert_eq!(media.components[1], "https://v.redd.it/q/DASH_audio.mp4");
    let silent = get_reddit_video("https://v.redd.it/q/DASH_240.mp4", Some(false));
    assert_eq!(silent.media_type, MediaType::RedditVideoWithoutAudio);
    assert_eq!(silent.components, vec![String::from("https://v.redd.it/q/DASH_240.mp4")]);
}

#[test]
fn gallery_of_three_items_has_three_images() {
    let data = with_gallery("https://www.reddit.com/gallery/k1x2y3", &["one", "two", "three"]);
    let media = resolve(&data);
    assert_eq!(media.len(), 1);
    assert_eq!(media[0].media_type, MediaType::RedditImage);
    assert_eq!(
        media[0].components,
        vec![
            String::from("https://i.redd.it/one.jpg"),
            String::from("https://i.redd.it/two.jpg"),
            String::from("https://i.redd.it/three.jpg"),
        ]
    );
}

#[test]
fn gallery_without_items_has_no_media() {
    assert!(resolve(&with_gallery("https://www.reddit.com/gallery/k1x2y3", &[])).is_empty());
    assert!(resolve(&post(Some("https://www.reddit.com/gallery/k1x2y3"))).is_empty());
}

#[test]
fn gallery_items_of_another_post_are_not_read() {
    let data = with_gallery("https://www.reddit.com/r/aww/comments/abc", &["one"]);
    assert!(resolve(&data).is_empty());
}

#[test]
fn gfycat_direct_link_is_taken_as_it_is() {
    let data = post(Some("https://giant.gfycat.com/SomeGif.mp4"));
    assert_eq!(lookups_for(&data).gfy_api, None);
    assert_single(
        &get_media(&data, None, Some(String::from("https://other/x.mp4"))),
        MediaType::GfycatGif,
        "https://giant.gfycat.com/SomeGif.mp4",
    );
}

#[test]
fn gfycat_post_link_is_looked_up() {
    let data = post(Some("https://gfycat.com/somegif"));
    let lookups = lookups_for(&data);
    assert_eq!(lookups.gfy_api, Some(String::from("https://api.gfycat.com/v1/gfycats/somegif")));
    assert_eq!(lookups.audio_probe, None);
    let answer = GfyData {
        gfy_item: GfyItem {
            gif_url: String::from("https://giant.gfycat.com/SomeGif.gif"),
            mp4_url: String::from("https://giant.gfycat.com/SomeGif.mp4"),
        },
    };
    let found = gfy_to_mp4(200, Some(answer));
    assert_eq!(found, Some(String::from("https://giant.gfycat.com/SomeGif.mp4")));
    assert_single(
        &get_media(&data, None, found),
        MediaType::GfycatGif,
        "https://giant.gfycat.com/SomeGif.mp4",
    );
}

#[test]
fn gfycat_lookup_that_finds_nothing_gives_no_media() {
    let data = post(Some("https://gfycat.com/somegif"));
    let found = gfy_to_mp4(404, None);
    assert_eq!(found, None);
    assert!(get_media(&data, None, found).is_empty());
}

#[test]
fn gfy_to_mp4_takes_only_status_200() {
    let answer = GfyData {
        gfy_item: GfyItem { gif_url: String::from("g"), mp4_url: String::from("m") },
    };
    assert_eq!(gfy_to_mp4(404, Some(answer.clone())), None);
    assert_eq!(gfy_to_mp4(201, Some(answer.clone())), None);
    assert_eq!(gfy_to_mp4(200, None), None);
    assert_eq!(gfy_to_mp4(200, Some(answer)), Some(String::from("m")));
}

#[test]
fn gfy_api_url_depends_on_the_host() {
    assert_eq!(gfy_api_url_of("https://gfycat.com/abc"), "https://api.gfycat.com/v1/gfycats/abc");
    assert_eq!(
        gfy_api_url_of("https://redgifs.com/watch/abc"),
        "https://api.redgifs.com/v1/gfycats/abc"
    );
}

#[test]
fn redgifs_link_is_kept() {
    assert_single(
        &resolve(&post(Some("https://www.redgifs.com/watch/someclip"))),
        MediaType::RedgifsVideo,
        "https://www.redgifs.com/watch/someclip",
    );
}

#[test]
fn giphy_media_link_is_taken_as_it_is() {
    assert_single(
        &resolve(&post(Some("https://media.giphy.com/media/abc123/giphy.gif"))),
        MediaType::GiphyGif,
        "https://media.giphy.com/media/abc123/giphy.gif",
    );
    assert_single(
        &resolve(&post(Some("https://media3.giphy.com/media/abc123/giphy.mp4"))),
        MediaType::GiphyGif,
        "https://media3.giphy.com/media/abc123/giphy.mp4",
    );
    assert_single(
        &resolve(&post(Some("https://media0.giphy.com/media/abc123/giphy.gifv"))),
        MediaType::GiphyGif,
        "https://media0.giphy.com/media/abc123/giphy.gifv",
    );
}

#[test]
fn giphy_media_link_of_another_extension_is_not_supported() {
    assert!(resolve(&post(Some("https://media.giphy.com/media/abc123/giphy.webp"))).is_empty());
}

#[test]
fn giphy_post_link_is_rewritten() {
    assert_single(
        &resolve(&post(Some("https://giphy.com/gifs/cat-funny-abc123"))),
        MediaType::GiphyGif,
        "https://media.giphy.com/media/abc123.gif",
    );
}

#[test]
fn imgur_gifv_becomes_mp4() {
    assert_single(
        &resolve(&post(Some("https://i.imgur.com/abc.gifv"))),
        MediaType::ImgurGif,
        "https://i.imgur.com/abc.mp4",
    );
}

#[test]
fn imgur_gifv_keeps_the_rest_of_the_url() {
    assert_single(
        &resolve(&post(Some("https://i.imgur.com/gifvabc.gifv"))),
        MediaType::ImgurGif,
        "https://i.imgur.com/gifvabc.mp4",
    );
}

#[test]
fn imgur_image_is_taken_as_it_is() {
    assert_single(
        &resolve(&post(Some("https://i.imgur.com/abc.jpg"))),
        MediaType::ImgurImage,
        "https://i.imgur.com/abc.jpg",
    );
    assert_single(
        &resolve(&post(Some("https://i.imgur.com/abc.png"))),
        MediaType::ImgurImage,
        "https://i.imgur.com/abc.png",
    );
}

#[test]
fn imgur_album_is_not_supported() {
    assert!(resolve(&post(Some("https://imgur.com/a/abc"))).is_empty());
    assert!(resolve(&post(Some("https://imgur.com/gallery/abc.jpg"))).is_empty());
}

#[test]
fn url_that_names_two_hosts_gives_the_media_of_both() {
    let media = resolve(&post(Some("https://i.redd.it/i.imgur.com/abc.jpg")));
    assert_eq!(media.len(), 2);
    assert_eq!(media[0].media_type, MediaType::RedditImage);
    assert_eq!(media[1].media_type, MediaType::ImgurImage);
}

#[test]
fn media_for_url_takes_the_normalized_url() {
    let data = post(None);
    let media = media_for_url("https://giphy.com/gifs/a-b", "/gifs/a-b", &data, None, None);
    assert_single(&media, MediaType::GiphyGif, "https://media.giphy.com/media/b.gif");
    let lookups = lookups_for_url("https://gfycat.com/x", &data);
    assert_eq!(lookups.gfy_api, Some(String::from("https://api.gfycat.com/v1/gfycats/x")));
}
