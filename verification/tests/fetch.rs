use reddsaver::download::MediaStatus;
use reddsaver::fetch::{
    download_media, fetch_redgif_url, fetch_step, redgif_api_url_of, redgif_location_of,
    redgif_lookup_url, save_or_skip, FetchAction, FetchEvent, FetchState,
};

const URL: &str = "https://i.redd.it/abc.jpg";
const FILE: &str = "data/aww/img-0.jpg";
const REDGIF: &str = "https://www.redgifs.com/watch/thisisatokenname";

fn is_stop(action: &FetchAction) -> bool {
    matches!(action, FetchAction::Stop)
}

#[test]
fn fetch_begins_with_the_check_of_the_path() {
    let step = fetch_step(URL, FILE, FetchState::Start, &FetchEvent::Begin);
    assert_eq!(step.state, FetchState::Checking);
    match step.action {
        FetchAction::CheckPath { path } => assert_eq!(path, FILE),
        other => panic!("unexpected action {:?}", other),
    }
}

#[test]
fn present_file_is_skipped_without_a_request() {
    let step =
        fetch_step(URL, FILE, FetchState::Checking, &FetchEvent::PathChecked { present: true });
    assert_eq!(step.state, FetchState::Finished(MediaStatus::Skipped));
    assert!(is_stop(&step.action));
    let direct = save_or_skip(FILE, true);
    assert_eq!(direct.state, FetchState::Finished(MediaStatus::Skipped));
    assert!(is_stop(&direct.action));
}

#[test]
fn missing_file_has_its_directory_made() {
    let step =
        fetch_step(URL, FILE, FetchState::Checking, &FetchEvent::PathChecked { present: false });
    assert_eq!(step.state, FetchState::Preparing);
    match step.action {
        FetchAction::CreateDirectory { path } => assert_eq!(path, FILE),
        other => panic!("unexpected action {:?}", other),
    }
}

#[test]
fn directory_that_cannot_be_made_fails_the_fetch() {
    let step =
        fetch_step(URL, FILE, FetchState::Preparing, &FetchEvent::DirectoryCreated { done: false });
    assert_eq!(step.state, FetchState::Failed);
    assert!(is_stop(&step.action));
    let direct = download_media(REDGIF, false);
    assert_eq!(direct.state, FetchState::Failed);
}

#[test]
fn component_is_requested_once_the_directory_is_there() {
    let step =
        fetch_step(URL, FILE, FetchState::Preparing, &FetchEvent::DirectoryCreated { done: true });
    assert_eq!(step.state, FetchState::Requesting);
    match step.action {
        FetchAction::Get { url, authorized } => {
            assert_eq!(url, URL);
            assert!(!authorized);
        }
        other => panic!("unexpected action {:?}", other),
    }
}

#[test]
fn redgifs_video_is_located_first() {
    let step = download_media(REDGIF, true);
    assert_eq!(step.state, FetchState::Locating);
    match step.action {
        FetchAction::Locate { url } => {
            assert_eq!(url, "https://api.redgifs.com/v2/gifs/thisisatokenname")
        }
        other => panic!("unexpected action {:?}", other),
    }
}

#[test]
fn redgifs_link_of_another_shape_is_skipped() {
    let step = download_media("https://www.redgifs.com/", true);
    assert_eq!(step.state, FetchState::Finished(MediaStatus::Skipped));
    assert!(is_stop(&step.action));
}

#[test]
fn redgif_lookup_url_reads_both_shapes_of_link() {
    assert_eq!(
        redgif_lookup_url("https://www.redgifs.com/watch/thisisatokenname"),
        Some(String::from("https://api.redgifs.com/v2/gifs/thisisatokenname"))
    );
    assert_eq!(
        redgif_lookup_url(
            "https://thumbs44.redgifs.com/ThisIsATokenName-mobile.mp4?hash=foo&thing=other"
        ),
        Some(String::from("https://api.redgifs.com/v2/gifs/thisisatokenname"))
    );
    assert_eq!(redgif_lookup_url("https://thumbs44.redgifs.com/ThisIsATokenName.mp4?a=b"), None);
    assert_eq!(redgif_lookup_url("https://example.com/watch/abc"), None);
    assert_eq!(redgif_api_url_of("abc"), "https://api.redgifs.com/v2/gifs/abc");
}

#[test]
fn located_video_is_requested_with_the_token() {
    let body = "{\"gif\":{\"id\":\"x\",\"urls\":{\"sd\":\"https://t/x-mobile.mp4\",\"hd\":\"https://t/x.mp4\"}}}";
    let step = fetch_step(
        REDGIF,
        FILE,
        FetchState::Locating,
        &FetchEvent::Located { body: Some(String::from(body)) },
    );
    assert_eq!(step.state, FetchState::Requesting);
    match step.action {
        FetchAction::Get { url, authorized } => {
            assert_eq!(url, "https://t/x.mp4");
            assert!(authorized);
        }
        other => panic!("unexpected action {:?}", other),
    }
}

#[test]
fn answer_without_location_leads_nowhere() {
    let step = fetch_redgif_url(Some("{\"error\":{\"code\":\"GifGone\"}}"));
    assert_eq!(step.state, FetchState::Requesting);
    match step.action {
        FetchAction::Get { url, authorized } => {
            assert_eq!(url, "http://127.0.0.1/invalid");
            assert!(authorized);
        }
        other => panic!("unexpected action {:?}", other),
    }
    let not_a_string = fetch_redgif_url(Some("{\"gif\":{\"urls\":{\"hd\":5}}}"));
    match not_a_string.action {
        FetchAction::Get { url, .. } => assert_eq!(url, "http://127.0.0.1/invalid"),
        other => panic!("unexpected action {:?}", other),
    }
}

#[test]
fn answer_that_cannot_be_read_is_skipped() {
    let step = fetch_redgif_url(Some("<html>busy</html>"));
    assert_eq!(step.state, FetchState::Finished(MediaStatus::Skipped));
    assert!(is_stop(&step.action));
    let none = fetch_redgif_url(None);
    assert_eq!(none.state, FetchState::Finished(MediaStatus::Skipped));
    let through = fetch_step(REDGIF, FILE, FetchState::Locating, &FetchEvent::Located { body: None });
    assert_eq!(through.state, FetchState::Finished(MediaStatus::Skipped));
}

#[test]
fn redgif_location_of_tells_the_three_answers_apart() {
    assert_eq!(
        redgif_location_of(Some(Some(String::from("https://t/x.mp4")))),
        Some(String::from("https://t/x.mp4"))
    );
    assert_eq!(redgif_location_of(Some(None)), Some(String::from("http://127.0.0.1/invalid")));
    assert_eq!(redgif_location_of(None), None);
}

#[test]
fn received_component_is_written() {
    let step = fetch_step(URL, FILE, FetchState::Requesting, &FetchEvent::Received { done: true });
    assert_eq!(step.state, FetchState::Writing);
    match step.action {
        FetchAction::Write { path } => assert_eq!(path, FILE),
        other => panic!("unexpected action {:?}", other),
    }
}

#[test]
fn failed_request_is_skipped() {
    let step = fetch_step(URL, FILE, FetchState::Requesting, &FetchEvent::Received { done: false });
    assert_eq!(step.state, FetchState::Finished(MediaStatus::Skipped));
    assert!(is_stop(&step.action));
}

#[test]
fn written_file_is_downloaded() {
    let step = fetch_step(URL, FILE, FetchState::Writing, &FetchEvent::Written { done: true });
    assert_eq!(step.state, FetchState::Finished(MediaStatus::Downloaded));
    assert!(is_stop(&step.action));
    let failed = fetch_step(URL, FILE, FetchState::Writing, &FetchEvent::Written { done: false });
    assert_eq!(failed.state, FetchState::Finished(MediaStatus::Skipped));
}

#[test]
fn event_out_of_turn_ends_the_fetch_as_skipped() {
    let step = fetch_step(URL, FILE, FetchState::Start, &FetchEvent::Written { done: true });
    assert_eq!(step.state, FetchState::Finished(MediaStatus::Skipped));
    assert!(is_stop(&step.action));
    let step = fetch_step(URL, FILE, FetchState::Writing, &FetchEvent::Begin);
    assert_eq!(step.state, FetchState::Finished(MediaStatus::Skipped));
}

#[test]
fn finished_fetch_stays_as_it_is() {
    let done = FetchState::Finished(MediaStatus::Downloaded);
    let step = fetch_step(URL, FILE, done, &FetchEvent::PathChecked { present: true });
    assert_eq!(step.state, done);
    assert!(is_stop(&step.action));
    let step = fetch_step(URL, FILE, FetchState::Failed, &FetchEvent::Begin);
    assert_eq!(step.state, FetchState::Failed);
    assert!(is_stop(&step.action));
}

#[test]
fn whole_fetch_of_a_new_file_ends_downloaded() {
    let events = [
        FetchEvent::Begin,
        FetchEvent::PathChecked { present: false },
        FetchEvent::DirectoryCreated { done: true },
        FetchEvent::Received { done: true },
        FetchEvent::Written { done: true },
    ];
    let mut state = FetchState::Start;
    let mut requests = 0;
    for event in events.iter() {
        let step = fetch_step(URL, FILE, state, event);
        if matches!(step.action, FetchAction::Get { .. } | FetchAction::Locate { .. }) {
            requests += 1;
        }
        state = step.state;
    }
    assert_eq!(state, FetchState::Finished(MediaStatus::Downloaded));
    assert_eq!(requests, 1);
}
