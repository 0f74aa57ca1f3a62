//! The user whose listing is backed up, and the requests made in their name.

use vstd::prelude::*;

use crate::auth::{Auth, field, FormRequest};
use crate::fetch::progress;
use crate::structures::ListingData;
use crate::text::{append, chars_of, string_of};
use crate::utils::bearer;

verus! {

/// Where requests that carry a bearer token are sent.
pub const API_URL: &'static str = "https://oauth.reddit.com";

#[derive(Debug, Clone, Copy)]
pub struct User<'a> {
    /// Contains authentication information about the user
    pub auth: &'a Auth,
    /// Username of the user who authorized the application
    pub name: &'a str,
}

#[derive(Debug, Clone, Copy, PartialEq, Eq, Structural)]
pub enum ListingType {
    Saved,
    Upvoted,
}

/// How far a listing has been read.
#[derive(Debug, Clone)]
pub struct ListingProgress {
    /// The number of posts on the pages read so far.
    pub processed: i32,
    /// Where the next page starts.
    pub after: Option<String>,
    /// Whether the last page has been read.
    pub complete: bool,
}

impl ListingType {
    /// The name of the listing, as a value.
    pub open spec fn name(&self) -> Seq<char> {
        match self {
            ListingType::Saved => "saved"@,
            ListingType::Upvoted => "upvoted"@,
        }
    }

    /// The name of the listing, as it stands in the address of its pages.
    pub fn to_string(&self) -> (r: String)
        ensures
            r@ == self.name(),
    {
        match self {
            ListingType::Saved => string_of(&chars_of("saved")),
            ListingType::Upvoted => string_of(&chars_of("upvoted")),
        }
    }
}

/// The address of what is known about the user `name`.
pub open spec fn about_url(name: Seq<char>) -> Seq<char> {
    API_URL@ + "/user/"@ + name + "/about"@
}

/// The address of the first page of a listing of the user `name`.
pub open spec fn first_page_url(name: Seq<char>, listing: ListingType) -> Seq<char> {
    API_URL@ + "/user/"@ + name + "/"@ + listing.name()
}

/// The address of the page of a listing that starts at `after`.
pub open spec fn later_page_url(
    name: Seq<char>,
    listing: ListingType,
    after: Seq<char>,
) -> Seq<char> {
    first_page_url(name, listing) + "?after="@ + after
}

/// The address of the request that takes a post out of a listing.
pub open spec fn undo_url(listing: ListingType) -> Seq<char> {
    match listing {
        ListingType::Upvoted => API_URL@ + "/api/vote"@,
        ListingType::Saved => API_URL@ + "/api/unsave"@,
    }
}

/// The form of the request that takes the post `name` out of a listing: a
/// vote is withdrawn by a vote in no direction.
pub open spec fn undo_form(name: Seq<char>, listing: ListingType) -> Seq<(Seq<char>, Seq<char>)> {
    match listing {
        ListingType::Upvoted => seq![("id"@, name), ("dir"@, "0"@)],
        ListingType::Saved => seq![("id"@, name)],
    }
}

impl ListingProgress {
    /// While pages have been read and more are to come, it is known where the
    /// next one starts.
    pub open spec fn well_formed(&self) -> bool {
        !self.complete && self.processed != 0 ==> self.after is Some
    }

    /// Nothing has been read.
    pub fn new() -> (r: ListingProgress)
        ensures
            r.processed == 0,
            r.after is None,
            !r.complete,
            r.well_formed(),
    {
        ListingProgress { processed: 0, after: None, complete: false }
    }

    /// The progress after the page `page` has been read: its posts are
    /// counted, and the listing is complete where the page names no next one.
    pub fn advance(&self, page: &ListingData) -> (r: ListingProgress)
        requires
            i32::MIN <= self.processed + page.dist <= i32::MAX,
        ensures
            r.processed == self.processed + page.dist,
            r.after.deep_view() == page.after.deep_view(),
            r.complete == page.after is None,
            r.well_formed(),
    {
        ListingProgress {
            processed: self.processed + page.dist,
            after: page.after.clone(),
            complete: page.after.is_none(),
        }
    }
}

impl<'a> User<'a> {
    pub fn new(auth: &'a Auth, name: &'a str) -> (r: Self)
        ensures
            r.auth == auth,
            r.name == name,
    {
        User { auth, name }
    }

    /// The address at which the platform tells what it knows about the user.
    pub fn about(&self) -> (r: String)
        ensures
            r@ == about_url(self.name@),
    {
        let mut r = chars_of(API_URL);
        append(&mut r, &chars_of("/user/"));
        append(&mut r, &chars_of(self.name));
        append(&mut r, &chars_of("/about"));
        string_of(&r)
    }

    /// The address of the next page of a listing: none once the listing is
    /// complete; the first page as long as no post has been counted; after
    /// that the page that starts where the last one said.
    pub fn listing(&self, listing_type: &ListingType, progress: &ListingProgress) -> (r: Option<
        String,
    >)
        requires
            progress.well_formed(),
        ensures
            r.deep_view() == if progress.complete {
                None
            } else if progress.processed == 0 {
                Some(first_page_url(self.name@, *listing_type))
            } else {
                Some(later_page_url(self.name@, *listing_type, progress.after->0@))
            },
    {
        if progress.complete {
            return None;
        }
        let mut r = chars_of(API_URL);
        append(&mut r, &chars_of("/user/"));
        append(&mut r, &chars_of(self.name));
        append(&mut r, &chars_of("/"));
        append(&mut r, &chars_of(listing_type.to_string().as_str()));
        if progress.processed != 0 {
            match &progress.after {
                Some(after) => {
                    append(&mut r, &chars_of("?after="));
                    append(&mut r, &chars_of(after.as_str()));
                },
                None => {},
            }
        }
        Some(string_of(&r))
    }

    /// The request that takes the post `name` out of the listing again: it
    /// unsaves a saved post, and withdraws the vote of an upvoted one.
    pub fn undo(&self, name: &str, listing_type: &ListingType) -> (r: FormRequest)
        ensures
            r.url@ == undo_url(*listing_type),
            r.authorization is None,
            r.form.deep_view() == undo_form(name@, *listing_type),
    {
        let mut form: Vec<(String, String)> = Vec::new();
        form.push(field("id", name));
        let mut url = chars_of(API_URL);
        match listing_type {
            ListingType::Upvoted => {
                append(&mut url, &chars_of("/api/vote"));
                form.push(field("dir", "0"));
            },
            ListingType::Saved => {
                append(&mut url, &chars_of("/api/unsave"));
            },
        }
        proof {
            assert(form.deep_view() =~= undo_form(name@, *listing_type));
        }
        FormRequest { url: string_of(&url), authorization: None, form }
    }
}

} // verus!
