//! The story shown on the page for addresses that lead nowhere.

use vstd::prelude::*;
use vstd::string::*;

verus! {

/// What is told while no story has come from the server.
pub const DEFAULT_STORY: &'static str =
    "If you don\u{2019}t like the road you\u{2019}re walking, pave another one. Except for this one.";

/// A story.
#[derive(Debug)]
pub struct Story {
    /// The text of the story.
    pub story: String,
}

impl Clone for Story {
    fn clone(&self) -> (copy: Self)
        ensures
            copy == *self,
    {
        Story { story: self.story.clone() }
    }
}

impl Default for Story {
    fn default() -> (told: Self)
        ensures
            told.story@ == DEFAULT_STORY@,
    {
        Self { story: DEFAULT_STORY.to_owned() }
    }
}

} // verus!
