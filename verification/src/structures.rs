//! The records of a listing as the logic reads them, and the counters of a run.

use vstd::prelude::*;

verus! {

/// One page of a user's listing.
#[derive(Debug, Clone)]
pub struct Listing {
    /// The kind of object this is, eg: Comment, Account, Subreddit.
    pub kind: String,
    /// The posts of the page, and where the next page starts.
    pub data: ListingData,
}

/// The contents of one page of a listing.
#[derive(Debug, Clone)]
pub struct ListingData {
    /// A token generated for the request that fetched the page.
    pub modhash: Option<String>,
    pub before: Option<String>,
    /// Where the next page starts; `None` on the last page.
    pub after: Option<String>,
    pub children: Vec<Post>,
    /// The number of posts on the page.
    pub dist: i32,
}

#[derive(Debug, Clone)]
pub struct Post {
    /// The kind of object this is, eg: Comment, Account, Subreddit.
    pub kind: String,
    pub data: PostData,
}

/// A link post or a self post.
#[derive(Debug, Clone)]
pub struct PostData {
    pub subreddit: String,
    /// The ID of the post in base-36 form.
    pub id: String,
    /// The points of the post, as shown on its counter.
    pub score: i64,
    /// The URL of the thumbnail; "self" for a self post, "default" where
    /// there is none.
    pub thumbnail: Option<String>,
    /// The ID of the subreddit, with its leading `t5_`.
    pub subreddit_id: String,
    /// Whether the logged-in user has saved the post.
    pub saved: bool,
    /// The permanent link of the post.
    pub permalink: String,
    /// The full ID of the post: its kind, as `t3_`, and its base-36 ID.
    pub name: String,
    /// The linked URL, if this is a link post.
    pub url: Option<String>,
    /// The title of the post.
    pub title: Option<String>,
    /// The images of a gallery post.
    pub gallery_data: Option<GalleryItems>,
    pub is_video: Option<bool>,
    /// The hosted video of a video post.
    pub media: Option<PostMedia>,
}

#[derive(Debug, Clone)]
pub struct PostMedia {
    pub reddit_video: Option<RedditVideo>,
}

#[derive(Debug, Clone)]
pub struct RedditVideo {
    /// Where the video can be had when the post's own URL is no direct link.
    pub fallback_url: String,
    pub is_gif: bool,
}

#[derive(Debug, Clone)]
pub struct GalleryItems {
    /// The images of the gallery, in the order of the post.
    pub items: Vec<GalleryItem>,
}

#[derive(Debug, Clone)]
pub struct GalleryItem {
    /// The media ID, from which the image's URL is built.
    pub media_id: String,
    /// The number of this image.
    pub id: i64,
}

/// What the gif host's lookup API answers.
#[derive(Debug, Clone)]
pub struct GfyData {
    pub gfy_item: GfyItem,
}

#[derive(Debug, Clone)]
pub struct GfyItem {
    pub gif_url: String,
    pub mp4_url: String,
}

/// The counters of a run, or of a part of one.
#[derive(Debug, Copy, Clone, PartialEq, Eq, Structural)]
pub struct Summary {
    /// Number of media downloaded
    pub media_downloaded: i32,
    /// Number of media skipped
    pub media_skipped: i32,
    /// Number of media supported, present and parsable
    pub media_supported: i32,
}

impl Summary {
    /// No counter is negative, and every supported component was either
    /// downloaded or skipped.
    pub open spec fn balanced(self) -> bool {
        &&& self.media_downloaded >= 0
        &&& self.media_skipped >= 0
        &&& self.media_supported == self.media_downloaded + self.media_skipped
    }

    /// Each counter of the two summaries can be added without overflow.
    pub open spec fn sums_fit(self, rhs: Summary) -> bool {
        &&& i32::MIN <= self.media_downloaded + rhs.media_downloaded <= i32::MAX
        &&& i32::MIN <= self.media_skipped + rhs.media_skipped <= i32::MAX
        &&& i32::MIN <= self.media_supported + rhs.media_supported <= i32::MAX
    }
}

impl core::ops::Add for Summary {
    type Output = Summary;

    /// Adds counter by counter.
    fn add(self, rhs: Summary) -> (r: Summary) {
        Summary {
            media_supported: self.media_supported + rhs.media_supported,
            media_downloaded: self.media_downloaded + rhs.media_downloaded,
            media_skipped: self.media_skipped + rhs.media_skipped,
        }
    }
}

impl vstd::std_specs::ops::AddSpecImpl for Summary {
    open spec fn obeys_add_spec() -> bool {
        true
    }

    open spec fn add_req(self, rhs: Summary) -> bool {
        self.sums_fit(rhs)
    }

    open spec fn add_spec(self, rhs: Summary) -> Summary {
        Summary {
            media_supported: (self.media_supported + rhs.media_supported) as i32,
            media_downloaded: (self.media_downloaded + rhs.media_downloaded) as i32,
            media_skipped: (self.media_skipped + rhs.media_skipped) as i32,
        }
    }
}

/// Two balanced summaries add up to a balanced one.
pub proof fn lemma_add_keeps_balance(a: Summary, b: Summary)
    requires
        a.balanced(),
        b.balanced(),
        a.sums_fit(b),
    ensures
        vstd::std_specs::ops::AddSpec::add_spec(a, b).balanced(),
{
}

} // verus!
