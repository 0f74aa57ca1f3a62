//! Backing up the media of a user's saved or upvoted posts.
//!
//! This library holds the decisions of a backup and none of its traffic. A
//! post is resolved into the media it links to ([`resolve`], over the values
//! of [`media`]); each component of a media gets the name of the file it is
//! stored in ([`naming`]); a component is fetched by a machine that says
//! what is to be done next and is told how it went ([`fetch`]); and a run
//! picks its posts, plans their files, counts what was downloaded and
//! skipped, and says when a video and its sound are put together
//! ([`download`]). Requests, files and processes are left to the program
//! that drives the library: it hands over what it received, as plain values,
//! and does what it is told.
//!
//! What is computed by other crates is reached through [`wrappers`] alone.

pub mod auth;
pub mod download;
pub mod errors;
pub mod fetch;
pub mod media;
pub mod naming;
pub mod resolve;
pub mod structures;
pub mod text;
pub mod user;
pub mod utils;
pub mod wrappers;
