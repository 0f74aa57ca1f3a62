//! Fetching one component: a machine that says, after each thing that
//! happened, what is to be done next. Whoever drives it does what it says
//! and tells it how that went.

use vstd::prelude::*;

use crate::download::{count_downloaded, lemma_all_skipped_none_downloaded, MediaStatus};
use crate::media::{redgifs, REDGIFS_DOMAIN};
use crate::naming::file_name;
use crate::text::{append, chars_of, contains, has_substring, string_of};
use crate::utils::agent;
use crate::wrappers::{
    capture_group, json_string, json_string_at, lowercased, regex_group, to_lowercase,
};

verus! {

/// The user agent sent with every request to the newer gif host: it has to
/// be the same for the request that gets a token and for those that use it.
pub const LOC_AGENT: &'static str =
    "Mozilla/5.0 (Macintosh; Intel Mac OS X 10_15_7) AppleWebKit/605.1.15 (KHTML, like Gecko) Version/16.6 Safari/605.1.15";

/// Where the newer gif host hands out tokens.
pub const RG_API_URL: &'static str = "https://api.redgifs.com/v2/auth/temporary";

/// Where the newer gif host tells the location of a video.
pub const RG_GIFLOC_URL: &'static str = "https://api.redgifs.com/v2/gifs";

/// The shape of a link with a query: the ID stands before the first hyphen of
/// the file name.
pub const RG_LINK_WITH_QUERY: &'static str =
    ".*redgifs.com*\\/(?P<token>[a-zA-Z0-9]+)\\-.*\\.[mp4gif]+\\?.*";

/// The shape of a link without a query: the ID is the second path segment.
pub const RG_LINK: &'static str = ".*redgifs.com*\\/[a-zA-Z0-9]+\\/(?P<token>[a-z]+)";

/// The name of the group that holds the ID in both shapes.
pub const RG_GROUP: &'static str = "token";

/// Where, in the host's answer, the location of the video stands.
pub const RG_LOCATION_POINTER: &'static str = "/gif/urls/hd";

/// The address that is requested where the host's answer names no video. No
/// request to it succeeds.
pub const RG_NOWHERE: &'static str = "http://127.0.0.1/invalid";

/// Where the fetch of a component stands.
#[derive(Debug, Clone, Copy, PartialEq, Eq, Structural)]
pub enum FetchState {
    /// Nothing has been done.
    Start,
    /// It is being checked whether the file is there already.
    Checking,
    /// The directory of the file is being made.
    Preparing,
    /// The gif host is being asked where the video is.
    Locating,
    /// The component has been requested.
    Requesting,
    /// The file is being written.
    Writing,
    /// The fetch is over.
    Finished(MediaStatus),
    /// The directory could not be made: the run cannot store anything.
    Failed,
}

/// What happened since the last step.
#[derive(Debug, Clone)]
pub enum FetchEvent {
    /// The fetch begins.
    Begin,
    /// It was checked whether the file is there.
    PathChecked { present: bool },
    /// The directory was made, or could not be.
    DirectoryCreated { done: bool },
    /// The gif host answered with this body, or did not answer.
    Located { body: Option<String> },
    /// The component arrived in full, or did not.
    Received { done: bool },
    /// The file was written, or could not be.
    Written { done: bool },
}

/// What is to be done next.
#[derive(Debug, Clone)]
pub enum FetchAction {
    /// Check whether there is a file at `path`.
    CheckPath { path: String },
    /// Make the directory that the file at `path` goes into, and those above.
    CreateDirectory { path: String },
    /// Ask the gif host's API at `url` where the video is. The request
    /// carries the host's user agent and token.
    Locate { url: String },
    /// Request the component at `url`, with the host's user agent and
    /// token where it is `authorized`.
    Get { url: String, authorized: bool },
    /// Write what arrived to a new file at `path`.
    Write { path: String },
    /// Nothing: the fetch is over.
    Stop,
}

/// A step of the machine: the new state, and what is to be done.
#[derive(Debug, Clone)]
pub struct FetchStep {
    pub state: FetchState,
    pub action: FetchAction,
}

/// An event as a value.
pub enum EventSpec {
    Begin,
    PathChecked { present: bool },
    DirectoryCreated { done: bool },
    Located { body: Option<Seq<char>> },
    Received { done: bool },
    Written { done: bool },
}

/// An action as a value.
pub enum ActionSpec {
    CheckPath { path: Seq<char> },
    CreateDirectory { path: Seq<char> },
    Locate { url: Seq<char> },
    Get { url: Seq<char>, authorized: bool },
    Write { path: Seq<char> },
    Stop,
}

/// A step as a value.
pub struct StepSpec {
    pub state: FetchState,
    pub action: ActionSpec,
}

impl DeepView for FetchEvent {
    type V = EventSpec;

    open spec fn deep_view(&self) -> EventSpec {
        match self {
            FetchEvent::Begin => EventSpec::Begin,
            FetchEvent::PathChecked { present } => EventSpec::PathChecked { present: *present },
            FetchEvent::DirectoryCreated { done } => EventSpec::DirectoryCreated { done: *done },
            FetchEvent::Located { body } => EventSpec::Located { body: body.deep_view() },
            FetchEvent::Received { done } => EventSpec::Received { done: *done },
            FetchEvent::Written { done } => EventSpec::Written { done: *done },
        }
    }
}

impl DeepView for FetchAction {
    type V = ActionSpec;

    open spec fn deep_view(&self) -> ActionSpec {
        match self {
            FetchAction::CheckPath { path } => ActionSpec::CheckPath { path: path@ },
            FetchAction::CreateDirectory { path } => ActionSpec::CreateDirectory { path: path@ },
            FetchAction::Locate { url } => ActionSpec::Locate { url: url@ },
            FetchAction::Get { url, authorized } => ActionSpec::Get {
                url: url@,
                authorized: *authorized,
            },
            FetchAction::Write { path } => ActionSpec::Write { path: path@ },
            FetchAction::Stop => ActionSpec::Stop,
        }
    }
}

impl DeepView for FetchStep {
    type V = StepSpec;

    open spec fn deep_view(&self) -> StepSpec {
        StepSpec { state: self.state, action: self.action.deep_view() }
    }
}

/// The fetch is over with `status`.
pub open spec fn finished(status: MediaStatus) -> StepSpec {
    StepSpec { state: FetchState::Finished(status), action: ActionSpec::Stop }
}

/// The shape that a link to the newer gif host is read by.
pub open spec fn redgif_pattern(url: Seq<char>) -> Seq<char> {
    if has_substring(url, "?"@) {
        RG_LINK_WITH_QUERY@
    } else {
        RG_LINK@
    }
}

/// The address at which the gif host tells the location of the video with
/// the ID `id`.
pub open spec fn redgif_api_url(id: Seq<char>) -> Seq<char> {
    RG_GIFLOC_URL@ + "/"@ + id
}

/// The address to ask for the location of the video behind a link: that of
/// the link's ID in lower case; none where the link has not the shape of one.
pub open spec fn redgif_lookup(url: Seq<char>) -> Option<Seq<char>> {
    match regex_group(redgif_pattern(url), url, RG_GROUP@) {
        Some(id) => Some(redgif_api_url(lowercased(id))),
        None => None,
    }
}

/// The address of the video, `found` being what the host's answer holds at
/// the place of the location: the location where it holds one, an address
/// that cannot be reached where it holds none, nothing where the answer
/// could not be read.
pub open spec fn redgif_location(found: Option<Option<Seq<char>>>) -> Option<Seq<char>> {
    match found {
        Some(Some(location)) => Some(location),
        Some(None) => Some(RG_NOWHERE@),
        None => None,
    }
}

/// After the check of the path: a file that is there is not fetched again.
pub open spec fn after_check(file_name: Seq<char>, present: bool) -> StepSpec {
    if present {
        finished(MediaStatus::Skipped)
    } else {
        StepSpec {
            state: FetchState::Preparing,
            action: ActionSpec::CreateDirectory { path: file_name },
        }
    }
}

/// After the directory was made: the component is requested, a video of
/// the newer gif host after its location has been asked for. Without the
/// directory the fetch has failed.
pub open spec fn after_directory(url: Seq<char>, done: bool) -> StepSpec {
    if !done {
        StepSpec { state: FetchState::Failed, action: ActionSpec::Stop }
    } else if has_substring(url, REDGIFS_DOMAIN@) {
        match redgif_lookup(url) {
            Some(api) => StepSpec {
                state: FetchState::Locating,
                action: ActionSpec::Locate { url: api },
            },
            None => finished(MediaStatus::Skipped),
        }
    } else {
        StepSpec {
            state: FetchState::Requesting,
            action: ActionSpec::Get { url, authorized: false },
        }
    }
}

/// After the gif host answered: the video is requested where the answer
/// could be read.
pub open spec fn after_location(body: Option<Seq<char>>) -> StepSpec {
    match body {
        Some(text) => match redgif_location(json_string(text, RG_LOCATION_POINTER@)) {
            Some(location) => StepSpec {
                state: FetchState::Requesting,
                action: ActionSpec::Get { url: location, authorized: true },
            },
            None => finished(MediaStatus::Skipped),
        },
        None => finished(MediaStatus::Skipped),
    }
}

/// The step that the machine takes from `state` on `event`, for the
/// component at `url` that is stored at `file_name`. An event that does not
/// belong to the state ends the fetch as skipped; a fetch that is over stays
/// as it is.
pub open spec fn fetch_next(
    url: Seq<char>,
    file_name: Seq<char>,
    state: FetchState,
    event: EventSpec,
) -> StepSpec {
    match (state, event) {
        (FetchState::Finished(status), _) => finished(status),
        (FetchState::Failed, _) => StepSpec { state: FetchState::Failed, action: ActionSpec::Stop },
        (FetchState::Start, EventSpec::Begin) => StepSpec {
            state: FetchState::Checking,
            action: ActionSpec::CheckPath { path: file_name },
        },
        (FetchState::Checking, EventSpec::PathChecked { present }) => after_check(
            file_name,
            present,
        ),
        (FetchState::Preparing, EventSpec::DirectoryCreated { done }) => after_directory(
            url,
            done,
        ),
        (FetchState::Locating, EventSpec::Located { body }) => after_location(body),
        (FetchState::Requesting, EventSpec::Received { done }) => if done {
            StepSpec { state: FetchState::Writing, action: ActionSpec::Write { path: file_name } }
        } else {
            finished(MediaStatus::Skipped)
        },
        (FetchState::Writing, EventSpec::Written { done }) => finished(
            if done {
                MediaStatus::Downloaded
            } else {
                MediaStatus::Skipped
            },
        ),
        _ => finished(MediaStatus::Skipped),
    }
}

/// How far a fetch has come.
pub open spec fn progress(state: FetchState) -> nat {
    match state {
        FetchState::Start => 0,
        FetchState::Checking => 1,
        FetchState::Preparing => 2,
        FetchState::Locating => 3,
        FetchState::Requesting => 4,
        FetchState::Writing => 5,
        FetchState::Finished(_) => 6,
        FetchState::Failed => 6,
    }
}

/// Whether a fetch is over.
pub open spec fn is_over(state: FetchState) -> bool {
    state is Finished || state is Failed
}

/// A step that ends the fetch with `status`.
fn finish(status: MediaStatus) -> (r: FetchStep)
    ensures
        r.deep_view() == finished(status),
{
    FetchStep { state: FetchState::Finished(status), action: FetchAction::Stop }
}

/// Helper function that downloads and saves a single media from Reddit or
/// Imgur: the step after the check of the path. `present` says whether
/// there is a file at `file_name` already.
pub fn save_or_skip(file_name: &str, present: bool) -> (r: FetchStep)
    ensures
        r.deep_view() == after_check(file_name@, present),
{
    if present {
        finish(MediaStatus::Skipped)
    } else {
        FetchStep {
            state: FetchState::Preparing,
            action: FetchAction::CreateDirectory { path: string_of(&chars_of(file_name)) },
        }
    }
}

/// The address at which the gif host tells the location of the video with
/// the ID `id`.
pub fn redgif_api_url_of(id: &str) -> (r: String)
    ensures
        r@ == redgif_api_url(id@),
{
    let mut r = chars_of(RG_GIFLOC_URL);
    append(&mut r, &chars_of("/"));
    append(&mut r, &chars_of(id));
    string_of(&r)
}

/// The address to ask for the location of the video behind a link to the
/// newer gif host.
pub fn redgif_lookup_url(url: &str) -> (r: Option<String>)
    ensures
        r.deep_view() == redgif_lookup(url@),
{
    let pattern = if contains(&chars_of(url), &chars_of("?")) {
        RG_LINK_WITH_QUERY
    } else {
        RG_LINK
    };
    match capture_group(pattern, url, RG_GROUP) {
        Some(id) => Some(redgif_api_url_of(to_lowercase(id.as_str()).as_str())),
        None => None,
    }
}

/// Download media from the given url and save to data directory: the step
/// after the directory of the file was made, or could not be.
pub fn download_media(url: &str, done: bool) -> (r: FetchStep)
    ensures
        r.deep_view() == after_directory(url@, done),
{
    if !done {
        FetchStep { state: FetchState::Failed, action: FetchAction::Stop }
    } else if contains(&chars_of(url), &chars_of(REDGIFS_DOMAIN)) {
        match redgif_lookup_url(url) {
            Some(api) => FetchStep {
                state: FetchState::Locating,
                action: FetchAction::Locate { url: api },
            },
            None => finish(MediaStatus::Skipped),
        }
    } else {
        FetchStep {
            state: FetchState::Requesting,
            action: FetchAction::Get { url: string_of(&chars_of(url)), authorized: false },
        }
    }
}

/// The address of the video, `found` being what the host's answer holds at
/// the place of the location.
pub fn redgif_location_of(found: Option<Option<String>>) -> (r: Option<String>)
    ensures
        r.deep_view() == redgif_location(found.deep_view()),
{
    match found {
        Some(Some(location)) => Some(location),
        Some(None) => Some(string_of(&chars_of(RG_NOWHERE))),
        None => None,
    }
}

/// Fetching content from the newer gif host goes back and forth: the step
/// after the host was asked where the video is. `body` is the body of its
/// answer, `None` where it did not answer.
pub fn fetch_redgif_url(body: Option<&str>) -> (r: FetchStep)
    ensures
        r.deep_view() == after_location(
            match body {
                Some(text) => Some(text@),
                None => None,
            },
        ),
{
    match body {
        Some(text) => match redgif_location_of(json_string_at(text, RG_LOCATION_POINTER)) {
            Some(location) => FetchStep {
                state: FetchState::Requesting,
                action: FetchAction::Get { url: location, authorized: true },
            },
            None => finish(MediaStatus::Skipped),
        },
        None => finish(MediaStatus::Skipped),
    }
}

/// The step that the machine takes from `state` on `event`.
pub fn fetch_step(url: &str, file_name: &str, state: FetchState, event: &FetchEvent) -> (r:
    FetchStep)
    ensures
        r.deep_view() == fetch_next(url@, file_name@, state, event.deep_view()),
{
    match state {
        FetchState::Finished(status) => finish(status),
        FetchState::Failed => FetchStep { state: FetchState::Failed, action: FetchAction::Stop },
        FetchState::Start => match event {
            FetchEvent::Begin => FetchStep {
                state: FetchState::Checking,
                action: FetchAction::CheckPath { path: string_of(&chars_of(file_name)) },
            },
            _ => finish(MediaStatus::Skipped),
        },
        FetchState::Checking => match event {
            FetchEvent::PathChecked { present } => save_or_skip(file_name, *present),
            _ => finish(MediaStatus::Skipped),
        },
        FetchState::Preparing => match event {
            FetchEvent::DirectoryCreated { done } => download_media(url, *done),
            _ => finish(MediaStatus::Skipped),
        },
        FetchState::Locating => match event {
            FetchEvent::Located { body } => match body {
                Some(text) => fetch_redgif_url(Some(text.as_str())),
                None => fetch_redgif_url(None),
            },
            _ => finish(MediaStatus::Skipped),
        },
        FetchState::Requesting => match event {
            FetchEvent::Received { done } => if *done {
                FetchStep {
                    state: FetchState::Writing,
                    action: FetchAction::Write { path: string_of(&chars_of(file_name)) },
                }
            } else {
                finish(MediaStatus::Skipped)
            },
            _ => finish(MediaStatus::Skipped),
        },
        FetchState::Writing => match event {
            FetchEvent::Written { done } => finish(
                if *done {
                    MediaStatus::Downloaded
                } else {
                    MediaStatus::Skipped
                },
            ),
            _ => finish(MediaStatus::Skipped),
        },
    }
}

/// A component whose file is there already is skipped, and nothing is
/// requested for it: the fetch begins with the check of the path, and ends
/// with it where the file is there.
pub proof fn lemma_present_is_skipped(url: Seq<char>, file_name: Seq<char>)
    ensures
        fetch_next(url, file_name, FetchState::Start, EventSpec::Begin) == (StepSpec {
            state: FetchState::Checking,
            action: ActionSpec::CheckPath { path: file_name },
        }),
        fetch_next(
            url,
            file_name,
            FetchState::Checking,
            EventSpec::PathChecked { present: true },
        ) == finished(MediaStatus::Skipped),
{
}

/// Every step takes a fetch further, until it is over; a fetch that is over
/// stays as it is. The machine says to stop exactly when the fetch is over.
pub proof fn lemma_fetch_goes_forward(
    url: Seq<char>,
    file_name: Seq<char>,
    state: FetchState,
    event: EventSpec,
)
    ensures
        is_over(state) ==> fetch_next(url, file_name, state, event).state == state,
        !is_over(state) ==> progress(fetch_next(url, file_name, state, event).state) > progress(
            state,
        ),
        fetch_next(url, file_name, state, event).action is Stop <==> is_over(
            fetch_next(url, file_name, state, event).state,
        ),
{
}

/// A fetch fails only where the directory could not be made. Whatever else
/// goes wrong, the component counts as skipped; and it counts as downloaded
/// only once its file has been written.
pub proof fn lemma_fetch_outcomes(
    url: Seq<char>,
    file_name: Seq<char>,
    state: FetchState,
    event: EventSpec,
)
    requires
        !is_over(state),
    ensures
        fetch_next(url, file_name, state, event).state is Failed <==> state is Preparing && event
            == (EventSpec::DirectoryCreated { done: false }),
        fetch_next(url, file_name, state, event).state == FetchState::Finished(
            MediaStatus::Downloaded,
        ) <==> state is Writing && event == (EventSpec::Written { done: true }),
{
}

/// Where the file of every component is there already, as after a run that
/// stored them all, nothing is downloaded: every fetch ends with the check of
/// its path, and none of the outcomes is a download.
pub proof fn lemma_present_files_download_nothing(
    urls: Seq<Seq<char>>,
    file_names: Seq<Seq<char>>,
    outcomes: Seq<MediaStatus>,
)
    requires
        urls.len() == outcomes.len(),
        file_names.len() == outcomes.len(),
        forall|i: int|
            0 <= i < outcomes.len() ==> fetch_next(
                urls[i],
                file_names[i],
                FetchState::Checking,
                EventSpec::PathChecked { present: true },
            ).state == FetchState::Finished(#[trigger] outcomes[i]),
    ensures
        count_downloaded(outcomes) == 0,
{
    assert forall|i: int| 0 <= i < outcomes.len() implies outcomes[i]
        == MediaStatus::Skipped by {
        lemma_present_is_skipped(urls[i], file_names[i]);
    }
    lemma_all_skipped_none_downloaded(outcomes);
}

} // verus!
