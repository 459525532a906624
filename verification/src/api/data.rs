//! The bodies of the smaller answers.

use vstd::prelude::*;
use vstd::string::*;

verus! {

/// The link to a background image.
#[derive(Debug)]
pub struct BackgroundGIF {
    /// Where the image is found.
    pub link: String,
}

/// The story shown on the page for addresses that lead nowhere.
#[derive(Debug)]
pub struct Story {
    /// The text of the story.
    pub story: String,
}

/// A message with the status code under which it is sent.
#[derive(Debug)]
pub struct Response {
    /// What happened.
    pub message: String,
    /// The HTTP status code, the same as on the status line.
    pub status_code: u16,
}

} // verus!
