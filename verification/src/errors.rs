//! What can go wrong in a run.

use vstd::prelude::*;

use crate::text::{append, chars_of, string_of};

verus! {

#[derive(Debug, Clone, PartialEq, Eq)]
pub enum ReddSaverError {
    /// A variable of the environment is missing.
    EnvVarNotPresent,
    /// A request could not be made or answered.
    ReqwestError,
    CouldNotCreateDirectory,
    /// The image with this name could not be saved.
    CouldNotSaveImageError(String),
    /// The image with this name could not be made from this source.
    CouldNotCreateImageError(String, String),
    /// A task could not be joined.
    TokioJoinError,
    ParsingIntError,
    TryFromIntError,
    DataDirNotFound,
    /// A file could not be made or written.
    IoError,
    /// A text could not be read as a URL.
    UrlError,
}

impl ReddSaverError {
    /// The message of the error, as a value.
    pub open spec fn text(&self) -> Seq<char> {
        match self {
            ReddSaverError::EnvVarNotPresent => "Missing environment variable"@,
            ReddSaverError::ReqwestError => "Unable to process request"@,
            ReddSaverError::CouldNotCreateDirectory => "Could not create directory"@,
            ReddSaverError::CouldNotSaveImageError(name) => "Could not save image `"@ + name@
                + "` to filesystem"@,
            ReddSaverError::CouldNotCreateImageError(name, source) => "Could not create image `"@
                + name@ + "` from `"@ + source@ + "`"@,
            ReddSaverError::TokioJoinError => "Unable to join tasks"@,
            ReddSaverError::ParsingIntError => "Could not save string to int"@,
            ReddSaverError::TryFromIntError => "Could not save usize to int"@,
            ReddSaverError::DataDirNotFound
                => "Data directory not found, please check if it exists"@,
            ReddSaverError::IoError => "Could not create or save image"@,
            ReddSaverError::UrlError => "Unable to parse URL"@,
        }
    }

    /// The message of the error.
    pub fn message(&self) -> (r: String)
        ensures
            r@ == self.text(),
    {
        match self {
            ReddSaverError::EnvVarNotPresent => string_of(
                &chars_of("Missing environment variable"),
            ),
            ReddSaverError::ReqwestError => string_of(&chars_of("Unable to process request")),
            ReddSaverError::CouldNotCreateDirectory => string_of(
                &chars_of("Could not create directory"),
            ),
            ReddSaverError::CouldNotSaveImageError(name) => {
                let mut r = chars_of("Could not save image `");
                append(&mut r, &chars_of(name.as_str()));
                append(&mut r, &chars_of("` to filesystem"));
                string_of(&r)
            },
            ReddSaverError::CouldNotCreateImageError(name, source) => {
                let mut r = chars_of("Could not create image `");
                append(&mut r, &chars_of(name.as_str()));
                append(&mut r, &chars_of("` from `"));
                append(&mut r, &chars_of(source.as_str()));
                append(&mut r, &chars_of("`"));
                string_of(&r)
            },
            ReddSaverError::TokioJoinError => string_of(&chars_of("Unable to join tasks")),
            ReddSaverError::ParsingIntError => string_of(
                &chars_of("Could not save string to int"),
            ),
            ReddSaverError::TryFromIntError => string_of(
                &chars_of("Could not save usize to int"),
            ),
            ReddSaverError::DataDirNotFound => string_of(
                &chars_of("Data directory not found, please check if it exists"),
            ),
            ReddSaverError::IoError => string_of(&chars_of("Could not create or save image")),
            ReddSaverError::UrlError => string_of(&chars_of("Unable to parse URL")),
        }
    }
}

} // verus!
