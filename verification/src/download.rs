//! A backup run: which posts it takes, where each component of their media
//! is stored, what is counted, and when a video is put together.

use vstd::prelude::*;

use crate::media::{declared_url, MediaSpec, MediaType, post_media, SupportedMedia};
use crate::naming::{
    canonical_name, canonical_name_of, canonical_title, canonical_title_of, component_extension,
    component_extension_of, component_index, component_index_of, file_name, hashed_name,
    readable_name,
};
use crate::structures::{Listing, Post, PostData, Summary};
use crate::text::{after_last, chars_of, contains, same_str, string_of, suffix_after_last};
use crate::user::{ListingType, User};
use crate::wrappers::compute_md5_hex;

verus! {

/// A backup run as it is configured. The downloader decides; whoever
/// drives it makes the requests and writes the files.
#[derive(Debug)]
pub struct Downloader<'a> {
    /// The user whose listing is backed up.
    pub user: &'a User<'a>,
    /// The pages of the listing.
    pub listing: &'a Vec<Listing>,
    /// Which of the user's listings this is.
    pub listing_type: &'a ListingType,
    /// The directory under which the media are stored.
    pub data_directory: &'a str,
    /// The subreddits that the run is restricted to, if it is.
    pub subreddits: &'a Option<Vec<&'a str>>,
    /// Whether media are fetched; a dry run only tells where they are.
    pub should_download: bool,
    /// Whether files are named by title and post rather than by digest.
    pub use_human_readable: bool,
    /// Whether a post is taken out of the listing once it has been dealt with.
    pub undo: bool,
    /// Whether the tool that puts video and audio together is installed.
    pub ffmpeg_available: bool,
}

/// Status of media processing
#[derive(Debug, Clone, Copy, PartialEq, Eq, Structural)]
pub enum MediaStatus {
    /// If we are able to successfully download the media
    Downloaded,
    /// If we are skipping downloading the media due to it already being present
    /// or because we could not find the media or because we are unable to decode
    /// the media
    Skipped,
}

/// Where a component is fetched from and where it is stored.
#[derive(Debug, Clone)]
pub struct ComponentPlan {
    pub url: String,
    pub file_name: String,
}

/// The files that go into the assembly of a video, and those that come out.
#[derive(Debug, Clone)]
pub struct AssemblyPlan {
    /// The file of the video component.
    pub video: String,
    /// The file of the audio component.
    pub audio: String,
    /// The file that holds the video with its sound.
    pub output: String,
    /// The file that holds what the tool said, where it failed.
    pub log: String,
}

/// Where the components of a media go.
#[derive(Debug, Clone)]
pub struct MediaPlan {
    pub media_type: MediaType,
    /// The components, in the order of the media.
    pub components: Vec<ComponentPlan>,
    /// The assembly, for a video with audio of two components.
    pub assembly: Option<AssemblyPlan>,
}

/// What is done once the components of a media have been dealt with.
#[derive(Debug, Clone, Copy, PartialEq, Eq, Structural)]
pub enum Assembly {
    /// The two components are put together.
    Combine,
    /// They would be, but the tool for it is missing.
    ToolMissing,
    /// Nothing is put together.
    Nothing,
}

/// The counts of a media, and what follows its components.
#[derive(Debug, Clone, Copy)]
pub struct Settlement {
    pub summary: Summary,
    pub assembly: Assembly,
}

/// A post of a collection as a unit of work.
#[derive(Debug, Clone, Copy)]
pub struct PostTask {
    /// The position of the post among the children of its collection.
    pub post: usize,
    /// Whether the post's media are resolved and fetched.
    pub process: bool,
    /// Whether the post is unsaved, or its vote withdrawn, afterwards.
    pub undo: bool,
}

/// The title of a post; empty where it has none.
pub open spec fn post_title(data: &PostData) -> Seq<char> {
    match data.title {
        Some(t) => t@,
        None => Seq::empty(),
    }
}

/// Whether a post declares a URL: one that is not empty.
pub open spec fn has_url(data: &PostData) -> bool {
    match data.url {
        Some(url) => url@.len() > 0,
        None => false,
    }
}

/// The positions, below `upto`, of the posts that declare a URL.
pub open spec fn posts_with_url(children: Seq<Post>, upto: int) -> Seq<int>
    decreases upto,
{
    if upto <= 0 {
        Seq::empty()
    } else if has_url(&children[upto - 1].data) {
        posts_with_url(children, upto - 1).push(upto - 1)
    } else {
        posts_with_url(children, upto - 1)
    }
}

/// How many of the outcomes are downloads.
pub open spec fn count_downloaded(outcomes: Seq<MediaStatus>) -> nat
    decreases outcomes.len(),
{
    if outcomes.len() == 0 {
        0
    } else {
        count_downloaded(outcomes.drop_last()) + if outcomes.last() == MediaStatus::Downloaded {
            1nat
        } else {
            0nat
        }
    }
}

/// What follows the components of a media: a video with audio of two
/// components, of which fewer than `skipped` = 2 were skipped, is put
/// together, if the tool is there and the run is no dry run.
pub open spec fn assembly_of(
    media_type: MediaType,
    components: nat,
    skipped: nat,
    ffmpeg_available: bool,
    should_download: bool,
) -> Assembly {
    if media_type == MediaType::RedditVideoWithAudio && components == 2 && skipped < 2 {
        if !ffmpeg_available {
            Assembly::ToolMissing
        } else if should_download {
            Assembly::Combine
        } else {
            Assembly::Nothing
        }
    } else {
        Assembly::Nothing
    }
}

/// The arguments with which the tool puts a video and its audio together:
/// both files go in, the streams are copied as they are, the sound is
/// taken from the second file and the picture from the first, and the result
/// goes to `target`.
pub open spec fn assembly_arguments(
    video: Seq<char>,
    audio: Seq<char>,
    target: Seq<char>,
) -> Seq<Seq<char>> {
    seq![
        "-i"@,
        video,
        "-i"@,
        audio,
        "-c"@,
        "copy"@,
        "-map"@,
        "1:a"@,
        "-map"@,
        "0:v"@,
        target,
    ]
}

/// The number of components of all of `media`: what they add to the count
/// of supported media.
pub open spec fn supported_components(media: Seq<MediaSpec>) -> nat
    decreases media.len(),
{
    if media.len() == 0 {
        0
    } else {
        supported_components(media.drop_last()) + media.last().components.len()
    }
}

/// The sums, counter by counter, of the first `upto` summaries.
pub open spec fn sum_downloaded(parts: Seq<Summary>, upto: int) -> int
    decreases upto,
{
    if upto <= 0 {
        0
    } else {
        sum_downloaded(parts, upto - 1) + parts[upto - 1].media_downloaded
    }
}

pub open spec fn sum_skipped(parts: Seq<Summary>, upto: int) -> int
    decreases upto,
{
    if upto <= 0 {
        0
    } else {
        sum_skipped(parts, upto - 1) + parts[upto - 1].media_skipped
    }
}

pub open spec fn sum_supported(parts: Seq<Summary>, upto: int) -> int
    decreases upto,
{
    if upto <= 0 {
        0
    } else {
        sum_supported(parts, upto - 1) + parts[upto - 1].media_supported
    }
}

/// No more outcomes are downloads than there are outcomes.
pub proof fn lemma_count_downloaded_bound(outcomes: Seq<MediaStatus>)
    ensures
        count_downloaded(outcomes) <= outcomes.len(),
    decreases outcomes.len(),
{
    if outcomes.len() > 0 {
        lemma_count_downloaded_bound(outcomes.drop_last());
    }
}

/// Where every outcome is a skip, none is a download.
pub proof fn lemma_all_skipped_none_downloaded(outcomes: Seq<MediaStatus>)
    requires
        forall|i: int| 0 <= i < outcomes.len() ==> outcomes[i] == MediaStatus::Skipped,
    ensures
        count_downloaded(outcomes) == 0,
    decreases outcomes.len(),
{
    if outcomes.len() > 0 {
        lemma_all_skipped_none_downloaded(outcomes.drop_last());
    }
}

/// The sums of balanced summaries grow with every summary, and are
/// balanced: what is supported is what was downloaded and what was skipped.
pub proof fn lemma_sums_grow(parts: Seq<Summary>, lower: int, upper: int)
    requires
        0 <= lower <= upper <= parts.len(),
        forall|i: int| 0 <= i < parts.len() ==> (#[trigger] parts[i]).balanced(),
    ensures
        0 <= sum_downloaded(parts, lower) <= sum_downloaded(parts, upper),
        0 <= sum_skipped(parts, lower) <= sum_skipped(parts, upper),
        0 <= sum_supported(parts, lower) <= sum_supported(parts, upper),
        sum_supported(parts, upper) == sum_downloaded(parts, upper) + sum_skipped(parts, upper),
    decreases upper,
{
    if upper > 0 {
        assert(parts[upper - 1].balanced());
        if lower < upper {
            lemma_sums_grow(parts, lower, upper - 1);
        } else {
            lemma_sums_grow(parts, lower - 1, upper - 1);
        }
    }
}

impl<'a> Downloader<'a> {
    pub fn new(
        user: &'a User<'a>,
        listing: &'a Vec<Listing>,
        listing_type: &'a ListingType,
        data_directory: &'a str,
        subreddits: &'a Option<Vec<&'a str>>,
        should_download: bool,
        use_human_readable: bool,
        undo: bool,
        ffmpeg_available: bool,
    ) -> (r: Downloader<'a>)
        ensures
            r.user == user,
            r.listing == listing,
            r.listing_type == listing_type,
            r.data_directory == data_directory,
            r.subreddits == subreddits,
            r.should_download == should_download,
            r.use_human_readable == use_human_readable,
            r.undo == undo,
            r.ffmpeg_available == ffmpeg_available,
    {
        Downloader {
            user,
            listing,
            listing_type,
            data_directory,
            subreddits,
            should_download,
            use_human_readable,
            undo,
            ffmpeg_available,
        }
    }

    /// Generate a file name in the right format that Reddsaver expects
    pub fn generate_file_name(
        &self,
        url: &str,
        subreddit: &str,
        extension: &str,
        name: &str,
        title: &str,
        index: &str,
    ) -> (r: String)
        ensures
            r@ == file_name(
                self.use_human_readable,
                self.data_directory@,
                url@,
                subreddit@,
                extension@,
                name@,
                title@,
                index@,
            ),
    {
        if !self.use_human_readable {
            // the hash of the URL gives the same name every time, so that a
            // second run finds the file of the first
            let hash = compute_md5_hex(url);
            hashed_name(self.data_directory, subreddit, hash.as_str(), extension)
        } else {
            let canonical_title = canonical_title_of(title);
            let canonical_name = canonical_name_of(name, index);
            readable_name(
                self.data_directory,
                subreddit,
                canonical_title.as_str(),
                canonical_name.as_str(),
                extension,
            )
        }
    }

    /// The subreddits that the run is restricted to, as values.
    pub open spec fn subreddit_names(&self) -> Option<Seq<Seq<char>>> {
        match *self.subreddits {
            Some(names) => Some(Seq::new(names@.len(), |i: int| names@[i]@)),
            None => None,
        }
    }

    /// Whether posts of `subreddit` are taken: all are where the run is not
    /// restricted, else those of the subreddits it is restricted to.
    pub open spec fn takes(&self, subreddit: Seq<char>) -> bool {
        match self.subreddit_names() {
            Some(names) => names.contains(subreddit),
            None => true,
        }
    }

    /// The file of the component at `index` of a media of the post `data`.
    pub open spec fn component_file(
        &self,
        data: &PostData,
        media_type: MediaType,
        url: Seq<char>,
        index: nat,
    ) -> Seq<char> {
        file_name(
            self.use_human_readable,
            self.data_directory@,
            url,
            data.subreddit@,
            component_extension(media_type, url, index),
            data.name@,
            post_title(data),
            component_index(media_type, index),
        )
    }

    /// The file of a media as a whole, with the extension `extension`: named
    /// by the URL of its first component, without an index.
    pub open spec fn whole_file(
        &self,
        data: &PostData,
        first_url: Seq<char>,
        extension: Seq<char>,
    ) -> Seq<char> {
        file_name(
            self.use_human_readable,
            self.data_directory@,
            first_url,
            data.subreddit@,
            extension,
            data.name@,
            post_title(data),
            "0"@,
        )
    }

    /// What a plan holds for the media `media` of the post `data`.
    pub open spec fn plans(&self, data: &PostData, media: MediaSpec, plan: &MediaPlan) -> bool {
        &&& plan.media_type == media.media_type
        &&& plan.components@.len() == media.components.len()
        &&& forall|i: int|
            0 <= i < media.components.len() ==> {
                &&& (#[trigger] plan.components@[i]).url@ == media.components[i]
                &&& plan.components@[i].file_name@ == self.component_file(
                    data,
                    media.media_type,
                    media.components[i],
                    i as nat,
                )
            }
        &&& match plan.assembly {
            Some(assembly) => {
                &&& media.media_type == MediaType::RedditVideoWithAudio
                &&& media.components.len() == 2
                &&& assembly.video@ == plan.components@[0].file_name@
                &&& assembly.audio@ == plan.components@[1].file_name@
                &&& assembly.output@ == self.whole_file(
                    data,
                    media.components[0],
                    after_last(media.components[0], '.'),
                )
                &&& assembly.log@ == self.whole_file(data, media.components[0], "log"@)
            },
            None => !(media.media_type == MediaType::RedditVideoWithAudio
                && media.components.len() == 2),
        }
    }

    /// Whether posts of `subreddit` are taken.
    pub fn takes_subreddit(&self, subreddit: &str) -> (r: bool)
        ensures
            r == self.takes(subreddit@),
    {
        match self.subreddits {
            Some(names) => {
                let ghost all = Seq::new(names@.len(), |k: int| names@[k]@);
                assert(self.subreddit_names() == Some(all));
                let mut i: usize = 0;
                while i < names.len()
                    invariant
                        i <= names.len(),
                        self.subreddit_names() == Some(all),
                        all == Seq::new(names@.len(), |k: int| names@[k]@),
                        forall|k: int| 0 <= k < i ==> names@[k]@ != subreddit@,
                    decreases names.len() - i,
                {
                    if same_str(names[i], subreddit) {
                        proof {
                            assert(all[i as int] == subreddit@);
                        }
                        return true;
                    }
                    i += 1;
                }
                proof {
                    if all.contains(subreddit@) {
                        let k = choose|k: int| 0 <= k < all.len() && all[k] == subreddit@;
                        assert(names@[k]@ == subreddit@);
                    }
                }
                false
            },
            None => true,
        }
    }

    /// The units of work of a collection: one for each post that declares a
    /// URL, in the order of the collection. A post of a subreddit that the
    /// run does not take is not processed; it is still undone where the run
    /// undoes.
    pub fn download_collection(&self, collection: &Listing) -> (tasks: Vec<PostTask>)
        ensures
            Seq::new(tasks@.len(), |k: int| tasks@[k].post as int) == posts_with_url(
                collection.data.children@,
                collection.data.children@.len() as int,
            ),
            forall|k: int|
                0 <= k < tasks@.len() ==> {
                    &&& (#[trigger] tasks@[k]).post < collection.data.children@.len()
                    &&& tasks@[k].process == self.takes(
                        collection.data.children@[tasks@[k].post as int].data.subreddit@,
                    )
                    &&& tasks@[k].undo == self.undo
                },
    {
        let children = &collection.data.children;
        let mut tasks: Vec<PostTask> = Vec::new();
        let mut i: usize = 0;
        while i < children.len()
            invariant
                i <= children.len(),
                children == &collection.data.children,
                Seq::new(tasks@.len(), |k: int| tasks@[k].post as int) =~= posts_with_url(
                    children@,
                    i as int,
                ),
                forall|k: int|
                    0 <= k < tasks@.len() ==> {
                        &&& (#[trigger] tasks@[k]).post < children@.len()
                        &&& tasks@[k].process == self.takes(
                            children@[tasks@[k].post as int].data.subreddit@,
                        )
                        &&& tasks@[k].undo == self.undo
                    },
            decreases children.len() - i,
        {
            let declared = match &children[i].data.url {
                Some(url) => !url.as_str().is_empty(),
                None => false,
            };
            if declared {
                let process = self.takes_subreddit(children[i].data.subreddit.as_str());
                tasks.push(PostTask { post: i, process, undo: self.undo });
            }
            i += 1;
        }
        tasks
    }

    /// Where the components of a media of the post `data` are fetched from
    /// and stored, and, for a video with audio of two components, the files
    /// of its assembly.
    pub fn plan_media(&self, data: &PostData, media: &SupportedMedia) -> (plan: MediaPlan)
        ensures
            self.plans(data, media.deep_view(), &plan),
    {
        let subreddit = data.subreddit.as_str();
        let name = data.name.as_str();
        let title = match &data.title {
            Some(t) => t.as_str(),
            None => "",
        };
        proof {
            reveal_strlit("");
            assert(title@ =~= post_title(data));
        }
        let media_type = media.media_type;
        let ghost spec = media.deep_view();
        let mut components: Vec<ComponentPlan> = Vec::new();
        let mut i: usize = 0;
        while i < media.components.len()
            invariant
                i <= media.components.len(),
                spec == media.deep_view(),
                media_type == media.media_type,
                subreddit@ == data.subreddit@,
                name@ == data.name@,
                title@ == post_title(data),
                components@.len() == i,
                forall|k: int|
                    0 <= k < i ==> {
                        &&& (#[trigger] components@[k]).url@ == spec.components[k]
                        &&& components@[k].file_name@ == self.component_file(
                            data,
                            media_type,
                            spec.components[k],
                            k as nat,
                        )
                    },
            decreases media.components.len() - i,
        {
            let url = media.components[i].as_str();
            proof {
                assert(url@ == spec.components[i as int]);
            }
            let item_index = component_index_of(media_type, i);
            let extension = component_extension_of(media_type, url, i);
            let file_name = self.generate_file_name(
                url,
                subreddit,
                extension.as_str(),
                name,
                title,
                item_index.as_str(),
            );
            components.push(ComponentPlan { url: media.components[i].clone(), file_name });
            i += 1;
        }
        let assembly = if media_type == MediaType::RedditVideoWithAudio && components.len() == 2 {
            let first_url = media.components[0].as_str();
            proof {
                assert(first_url@ == spec.components[0]);
            }
            let extension = string_of(&suffix_after_last(&chars_of(first_url), '.'));
            Some(
                AssemblyPlan {
                    video: components[0].file_name.clone(),
                    audio: components[1].file_name.clone(),
                    output: self.generate_file_name(
                        first_url,
                        subreddit,
                        extension.as_str(),
                        name,
                        title,
                        "0",
                    ),
                    log: self.generate_file_name(first_url, subreddit, "log", name, title, "0"),
                },
            )
        } else {
            None
        };
        MediaPlan { media_type, components, assembly }
    }

    /// The counts of a media once its components have been dealt with, and
    /// what follows. In a dry run every component counts as skipped and
    /// `outcomes` is not read; otherwise `outcomes` holds the outcome of each
    /// component, in order.
    pub fn settle(&self, plan: &MediaPlan, outcomes: &Vec<MediaStatus>) -> (r: Settlement)
        requires
            plan.components@.len() <= i32::MAX,
            self.should_download ==> outcomes@.len() == plan.components@.len(),
        ensures
            r.summary.media_supported == plan.components@.len(),
            r.summary.media_downloaded == (if self.should_download {
                count_downloaded(outcomes@)
            } else {
                0
            }),
            r.summary.media_skipped == r.summary.media_supported - r.summary.media_downloaded,
            r.summary.balanced(),
            r.assembly == assembly_of(
                plan.media_type,
                plan.components@.len(),
                if self.should_download {
                    r.summary.media_skipped as nat
                } else {
                    0
                },
                self.ffmpeg_available,
                self.should_download,
            ),
    {
        let supported: i32 = plan.components.len() as i32;
        let mut downloaded: i32 = 0;
        if self.should_download {
            let mut i: usize = 0;
            while i < outcomes.len()
                invariant
                    i <= outcomes.len() <= i32::MAX,
                    downloaded == count_downloaded(outcomes@.subrange(0, i as int)),
                    downloaded <= i,
                decreases outcomes.len() - i,
            {
                proof {
                    assert(outcomes@.subrange(0, i + 1).drop_last() =~= outcomes@.subrange(
                        0,
                        i as int,
                    ));
                }
                if outcomes[i] == MediaStatus::Downloaded {
                    downloaded = downloaded + 1;
                }
                i += 1;
            }
            proof {
                assert(outcomes@.subrange(0, outcomes@.len() as int) =~= outcomes@);
            }
        }
        let skipped: i32 = supported - downloaded;
        let local_skipped: i32 = if self.should_download {
            skipped
        } else {
            0
        };
        let assembly = if plan.media_type == MediaType::RedditVideoWithAudio
            && plan.components.len() == 2 && local_skipped < 2 {
            if !self.ffmpeg_available {
                Assembly::ToolMissing
            } else if self.should_download {
                Assembly::Combine
            } else {
                Assembly::Nothing
            }
        } else {
            Assembly::Nothing
        };
        Settlement {
            summary: Summary {
                media_supported: supported,
                media_downloaded: downloaded,
                media_skipped: skipped,
            },
            assembly,
        }
    }

    /// The summary of a run: the sum of the summaries of its parts.
    pub fn run(&self, parts: &Vec<Summary>) -> (full_summary: Summary)
        requires
            forall|i: int| 0 <= i < parts@.len() ==> (#[trigger] parts@[i]).balanced(),
            sum_supported(parts@, parts@.len() as int) <= i32::MAX,
        ensures
            full_summary.media_supported == sum_supported(parts@, parts@.len() as int),
            full_summary.media_downloaded == sum_downloaded(parts@, parts@.len() as int),
            full_summary.media_skipped == sum_skipped(parts@, parts@.len() as int),
            full_summary.balanced(),
    {
        let mut full_summary = Summary { media_downloaded: 0, media_skipped: 0, media_supported: 0 };
        let mut i: usize = 0;
        while i < parts.len()
            invariant
                i <= parts.len(),
                forall|k: int| 0 <= k < parts@.len() ==> (#[trigger] parts@[k]).balanced(),
                sum_supported(parts@, parts@.len() as int) <= i32::MAX,
                full_summary.media_supported == sum_supported(parts@, i as int),
                full_summary.media_downloaded == sum_downloaded(parts@, i as int),
                full_summary.media_skipped == sum_skipped(parts@, i as int),
            decreases parts.len() - i,
        {
            proof {
                lemma_sums_grow(parts@, i + 1, parts@.len() as int);
                lemma_sums_grow(parts@, i as int, i + 1);
                assert(parts@[i as int].balanced());
            }
            full_summary = full_summary + parts[i];
            i += 1;
        }
        proof {
            lemma_sums_grow(parts@, 0, parts@.len() as int);
        }
        full_summary
    }
}

/// The arguments with which the tool is run on the files of `assembly`, to
/// write what it puts together to `target`.
pub fn ffmpeg_arguments(assembly: &AssemblyPlan, target: &str) -> (r: Vec<String>)
    ensures
        r.deep_view() == assembly_arguments(assembly.video@, assembly.audio@, target@),
{
    let mut r: Vec<String> = Vec::new();
    r.push(string_of(&chars_of("-i")));
    r.push(assembly.video.clone());
    r.push(string_of(&chars_of("-i")));
    r.push(assembly.audio.clone());
    r.push(string_of(&chars_of("-c")));
    r.push(string_of(&chars_of("copy")));
    r.push(string_of(&chars_of("-map")));
    r.push(string_of(&chars_of("1:a")));
    r.push(string_of(&chars_of("-map")));
    r.push(string_of(&chars_of("0:v")));
    r.push(string_of(&chars_of(target)));
    proof {
        assert(r.deep_view() =~= assembly_arguments(assembly.video@, assembly.audio@, target@));
    }
    r
}

/// The two components of a video with audio are put together exactly where
/// at least one of them was downloaded, the tool is there and the run is no
/// dry run. Where both were skipped, nothing is put together, with or without
/// the tool.
pub proof fn lemma_assembly_needs_a_download(
    outcomes: Seq<MediaStatus>,
    ffmpeg_available: bool,
    should_download: bool,
)
    requires
        outcomes.len() == 2,
    ensures
        assembly_of(
            MediaType::RedditVideoWithAudio,
            2,
            (2 - count_downloaded(outcomes)) as nat,
            ffmpeg_available,
            should_download,
        ) == Assembly::Combine <==> count_downloaded(outcomes) >= 1 && ffmpeg_available
            && should_download,
        count_downloaded(outcomes) == 0 ==> assembly_of(
            MediaType::RedditVideoWithAudio,
            2,
            2,
            ffmpeg_available,
            should_download,
        ) == Assembly::Nothing,
{
    lemma_count_downloaded_bound(outcomes);
}

/// A post that declares no URL adds nothing to the count of supported media,
/// whatever the lookups answer.
pub proof fn lemma_post_without_url_supports_nothing(
    data: &PostData,
    audio: Option<bool>,
    gfy_mp4: Option<Seq<char>>,
)
    requires
        declared_url(data) is None,
    ensures
        supported_components(post_media(data, audio, gfy_mp4)) == 0,
        !has_url(data),
{
}

/// Two plans of the same media of the same post, made in the same run or in
/// two runs that are configured alike, name the same files.
pub proof fn lemma_plans_name_the_same_files(
    first_run: &Downloader,
    second_run: &Downloader,
    data: &PostData,
    media: MediaSpec,
    first: &MediaPlan,
    second: &MediaPlan,
)
    requires
        first_run.use_human_readable == second_run.use_human_readable,
        first_run.data_directory@ == second_run.data_directory@,
        first_run.plans(data, media, first),
        second_run.plans(data, media, second),
    ensures
        first.components@.len() == second.components@.len(),
        forall|i: int|
            0 <= i < first.components@.len() ==> (#[trigger] first.components@[i]).file_name@
                == second.components@[i].file_name@,
{
    assert forall|i: int| 0 <= i < first.components@.len() implies (
    #[trigger] first.components@[i]).file_name@ == second.components@[i].file_name@ by {
        assert(second.components@[i].url@ == media.components[i]);
    }
}

} // verus!
