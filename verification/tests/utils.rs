use reddsaver::auth::{basic_authorization, Client};
use reddsaver::errors::ReddSaverError;
use reddsaver::structures::ListingData;
use reddsaver::user::{ListingProgress, ListingType, User};
use reddsaver::auth::Auth;
use reddsaver::utils::{
    agent_string, application_present, bearer_token, check_path_present, check_url_is_mp4,
    coerce_subreddits, fetch_redgif_token, get_user_agent_string, mask_sensitive, mp4_video,
    print_subreddits, random_agent_string, redgif_token_from,
};

fn auth() -> Auth {
    Auth {
        access_token: String::from("token"),
        token_type: String::from("bearer"),
        expires_in: 3600,
        scope: String::from("*"),
    }
}

fn page(dist: i32, after: Option<&str>) -> ListingData {
    ListingData {
        modhash: None,
        before: None,
        after: after.map(String::from),
        children: Vec::new(),
        dist,
    }
}

#[test]
fn mask_sensitive_shows_an_empty_word_as_such() {
    assert_eq!(mask_sensitive(""), "<EMPTY>");
}

#[test]
fn mask_sensitive_hides_short_words_whole() {
    assert_eq!(mask_sensitive("a"), "*");
    assert_eq!(mask_sensitive("ab"), "**");
    assert_eq!(mask_sensitive("abc"), "***");
}

#[test]
fn mask_sensitive_keeps_two_first_and_the_last() {
    assert_eq!(mask_sensitive("abcd"), "ab*d");
    assert_eq!(mask_sensitive("secret"), "se***t");
    assert_eq!(mask_sensitive("hunter2hunter2"), "hu***********2");
}

#[test]
fn mask_sensitive_counts_bytes() {
    assert_eq!(mask_sensitive("é"), "**");
    assert_eq!(mask_sensitive("héllo"), "hé***");
}

#[test]
fn coerce_subreddits_drops_an_empty_selection() {
    assert_eq!(coerce_subreddits(vec!["aww", "pics"]), Some(vec!["aww", "pics"]));
    assert_eq!(coerce_subreddits(vec!["aww", ""]), Some(vec!["aww", ""]));
    assert_eq!(coerce_subreddits(Vec::new()), None);
    assert_eq!(coerce_subreddits(vec![""]), None);
    assert_eq!(coerce_subreddits(vec!["", "aww"]), None);
}

#[test]
fn print_subreddits_joins_with_commas() {
    assert_eq!(print_subreddits(&Some(vec!["aww", "pics", "videos"])), "aww,pics,videos");
    assert_eq!(print_subreddits(&Some(vec!["aww"])), "aww");
    assert_eq!(print_subreddits(&Some(Vec::new())), "");
    assert_eq!(print_subreddits(&Some(vec!["", ""])), ",");
    assert_eq!(print_subreddits(&None), "<ALL>");
}

#[test]
fn user_agent_is_name_and_version() {
    assert_eq!(
        get_user_agent_string(Some(String::from("reddsaver")), Some(String::from("0.4"))),
        "reddsaver:0.4"
    );
    assert_eq!(agent_string("a", "1"), "a:1");
}

#[test]
fn random_user_agent_is_a_name_and_a_number() {
    for agent in [
        get_user_agent_string(None, None),
        get_user_agent_string(Some(String::from("only-name")), None),
        get_user_agent_string(None, Some(String::from("1"))),
    ] {
        let (name, version) = agent.split_once(':').expect("a colon between name and version");
        assert!(!name.is_empty());
        assert!(!name.contains(' '));
        assert_eq!(name, name.to_lowercase());
        assert!(version.parse::<u32>().is_ok());
    }
}

#[test]
fn random_agent_string_joins_and_lowers_the_name() {
    assert_eq!(random_agent_string("Lyric Smith", 42), "lyricsmith:42");
    assert_eq!(random_agent_string("EDWIN ERROR", 0), "edwinerror:0");
    assert_eq!(random_agent_string("A B C", 4294967295), "abc:4294967295");
}

#[test]
fn check_path_present_looks_at_the_disk() {
    assert!(check_path_present("/"));
    assert!(!check_path_present("/no/such/path/anywhere/at/all"));
}

#[test]
fn application_present_fails_for_a_program_that_is_not_there() {
    assert!(!application_present(String::from("no-such-program-anywhere-at-all")));
}

#[test]
fn content_type_of_an_mp4_video_is_recognized() {
    assert_eq!(check_url_is_mp4(Some("video/mp4")), Some(true));
    assert_eq!(check_url_is_mp4(Some("Video/MP4")), Some(true));
    assert_eq!(check_url_is_mp4(Some("video/mp4; codecs=\"avc1\"")), Some(true));
}

#[test]
fn other_content_types_are_no_video() {
    assert_eq!(check_url_is_mp4(Some("application/xml")), Some(false));
    assert_eq!(check_url_is_mp4(Some("audio/mp4")), Some(false));
    assert_eq!(check_url_is_mp4(Some("video/webm")), Some(false));
    assert_eq!(check_url_is_mp4(Some("text/html; charset=utf-8")), Some(false));
}

#[test]
fn missing_or_unreadable_content_type_is_unknown() {
    assert_eq!(check_url_is_mp4(None), None);
    assert_eq!(check_url_is_mp4(Some("not a media type")), None);
    assert_eq!(check_url_is_mp4(Some("")), None);
}

#[test]
fn mp4_video_compares_both_names() {
    assert!(mp4_video("video", "mp4"));
    assert!(!mp4_video("video", "mp"));
    assert!(!mp4_video("audio", "mp4"));
}

#[test]
fn redgif_token_is_read_out_of_the_answer() {
    assert_eq!(
        fetch_redgif_token("{\"token\":\"abc.def\",\"addr\":\"1.2.3.4\"}"),
        Ok(String::from("Bearer abc.def"))
    );
    assert_eq!(bearer_token("abc"), "Bearer abc");
}

#[test]
fn answer_without_token_is_an_error() {
    let expected = Err(ReddSaverError::CouldNotSaveImageError(String::new()));
    assert_eq!(fetch_redgif_token("{\"error\":\"denied\"}"), expected);
    assert_eq!(fetch_redgif_token("{\"token\":17}"), expected);
    assert_eq!(fetch_redgif_token("not json"), expected);
    assert_eq!(redgif_token_from(None), expected);
    assert_eq!(redgif_token_from(Some(None)), expected);
    assert_eq!(redgif_token_from(Some(Some(String::from("t")))), Ok(String::from("Bearer t")));
}

#[test]
fn error_messages_name_what_went_wrong() {
    assert_eq!(ReddSaverError::EnvVarNotPresent.message(), "Missing environment variable");
    assert_eq!(ReddSaverError::ReqwestError.message(), "Unable to process request");
    assert_eq!(ReddSaverError::CouldNotCreateDirectory.message(), "Could not create directory");
    assert_eq!(
        ReddSaverError::CouldNotSaveImageError(String::from("a.jpg")).message(),
        "Could not save image `a.jpg` to filesystem"
    );
    assert_eq!(
        ReddSaverError::CouldNotCreateImageError(String::from("a.jpg"), String::from("url"))
            .message(),
        "Could not create image `a.jpg` from `url`"
    );
    assert_eq!(ReddSaverError::TokioJoinError.message(), "Unable to join tasks");
    assert_eq!(ReddSaverError::ParsingIntError.message(), "Could not save string to int");
    assert_eq!(ReddSaverError::TryFromIntError.message(), "Could not save usize to int");
    assert_eq!(
        ReddSaverError::DataDirNotFound.message(),
        "Data directory not found, please check if it exists"
    );
    assert_eq!(ReddSaverError::IoError.message(), "Could not create or save image");
    assert_eq!(ReddSaverError::UrlError.message(), "Unable to parse URL");
}

#[test]
fn login_sends_the_credentials_in_base64() {
    let client = Client::new("my_id", "my_secret", "someone", "hunter2");
    let request = client.login();
    assert_eq!(request.url, "https://www.reddit.com/api/v1/access_token");
    assert_eq!(request.authorization, Some(String::from("Basic bXlfaWQ6bXlfc2VjcmV0")));
    assert_eq!(
        request.form,
        vec![
            (String::from("username"), String::from("someone")),
            (String::from("password"), String::from("hunter2")),
            (String::from("grant_type"), String::from("password")),
        ]
    );
    assert_eq!(basic_authorization("abc"), "Basic abc");
}

#[test]
fn listing_type_has_a_name() {
    assert_eq!(ListingType::Saved.to_string(), "saved");
    assert_eq!(ListingType::Upvoted.to_string(), "upvoted");
}

#[test]
fn about_is_asked_under_the_name_of_the_user() {
    let a = auth();
    let user = User::new(&a, "someone");
    assert_eq!(user.about(), "https://oauth.reddit.com/user/someone/about");
    assert_eq!(user.auth.access_token, "token");
}

#[test]
fn listing_is_read_page_by_page() {
    let a = auth();
    let user = User::new(&a, "someone");
    let start = ListingProgress::new();
    assert_eq!(
        user.listing(&ListingType::Saved, &start),
        Some(String::from("https://oauth.reddit.com/user/someone/saved"))
    );
    let second = start.advance(&page(100, Some("t3_last")));
    assert_eq!(second.processed, 100);
    assert!(!second.complete);
    assert_eq!(
        user.listing(&ListingType::Upvoted, &second),
        Some(String::from("https://oauth.reddit.com/user/someone/upvoted?after=t3_last"))
    );
    let done = second.advance(&page(12, None));
    assert_eq!(done.processed, 112);
    assert!(done.complete);
    assert_eq!(user.listing(&ListingType::Saved, &done), None);
}

#[test]
fn empty_first_page_is_asked_for_again() {
    let a = auth();
    let user = User::new(&a, "someone");
    let progress = ListingProgress::new().advance(&page(0, Some("t3_x")));
    assert_eq!(
        user.listing(&ListingType::Saved, &progress),
        Some(String::from("https://oauth.reddit.com/user/someone/saved"))
    );
}

#[test]
fn undo_unsaves_a_saved_post() {
    let a = auth();
    let user = User::new(&a, "someone");
    let request = user.undo("t3_abc", &ListingType::Saved);
    assert_eq!(request.url, "https://oauth.reddit.com/api/unsave");
    assert_eq!(request.authorization, None);
    assert_eq!(request.form, vec![(String::from("id"), String::from("t3_abc"))]);
}

#[test]
fn undo_withdraws_the_vote_of_an_upvoted_post() {
    let a = auth();
    let user = User::new(&a, "someone");
    let request = user.undo("t3_abc", &ListingType::Upvoted);
    assert_eq!(request.url, "https://oauth.reddit.com/api/vote");
    assert_eq!(
        request.form,
        vec![
            (String::from("id"), String::from("t3_abc")),
            (String::from("dir"), String::from("0")),
        ]
    );
}
