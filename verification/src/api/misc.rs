//! What the routes for the background image, the story and the Chicago data answer.

use crate::api::data::{BackgroundGIF, Story};
use crate::api::errors::{StaccError, StaccResponseError};
use crate::api::mongo::Mongo;
use rand::Rng;
use vstd::prelude::*;
use vstd::string::*;

verus! {

/// The image that is shown where none can be had from the store.
pub const FALLBACK_GIF: &'static str = "https://imgur.com/FgJDNsx.gif";

/// The story that is told where none can be had from the store.
pub const FALLBACK_STORY: &'static str =
    "If you don\u{2019}t like the road you\u{2019}re walking, pave another one. Except for this one.";

/// The cookie in which the browser keeps the link to its background image.
#[derive(Debug)]
pub struct BackgroundCookie {
    /// The name of the cookie: `background`.
    pub name: String,
    /// The link to the image.
    pub value: String,
    /// The domain of the site.
    pub domain: String,
    /// The path for which the cookie holds: `/`.
    pub path: String,
    /// Whether the cookie stays with requests from the same site.
    pub same_site_strict: bool,
    /// Whether the cookie ends with the session.
    pub session_only: bool,
}

/// Calls rand's `thread_rng` and `Rng::gen_range` with the range `0..count`.
///
/// Trusted: the number drawn is below `count`. `gen_range` panics on an empty range, so
/// `count` must not be zero.
#[verifier::external_body]
fn draw_below(count: u64) -> (index: u64)
    requires
        count > 0,
    ensures
        index < count,
{
    rand::thread_rng().gen_range(0..count)
}

/// Draws the index of one document out of `count`; there is none to draw out of zero.
pub fn random_index(count: u64) -> (index: Option<u64>)
    ensures
        count == 0 ==> index is None,
        count > 0 ==> (index matches Some(i) && i < count),
{
    if count == 0 {
        None
    } else {
        Some(draw_below(count))
    }
}

/// The failure to count the documents of a collection.
pub fn count_failure(why: String) -> (error: StaccResponseError)
    ensures
        error matches StaccResponseError::MongoDBError { error: text } && text == why,
{
    StaccResponseError::MongoDBError { error: why }
}

/// The failure to get the Chicago data.
pub fn chicago_failure(cause: &StaccError) -> (error: StaccResponseError)
    ensures
        error matches StaccResponseError::ChicagoAPIError { error: text } && text@
            == cause.message_text(),
{
    StaccResponseError::ChicagoAPIError { error: cause.message() }
}

/// The image to answer with, given what the store came up with: the image that was found,
/// and the fallback where none was found or the store failed.
pub fn background_or_fallback(found: Result<Option<BackgroundGIF>, String>) -> (gif:
    BackgroundGIF)
    ensures
        match found {
            Ok(Some(image)) => gif == image,
            _ => gif.link@ == FALLBACK_GIF@,
        },
{
    match found {
        Ok(Some(image)) => image,
        _ => BackgroundGIF { link: FALLBACK_GIF.to_owned() },
    }
}

/// The story to answer with, given what the store came up with: the story that was found,
/// and the fallback where none was found or the store failed.
pub fn story_or_fallback(found: Result<Option<Story>, String>) -> (story: Story)
    ensures
        match found {
            Ok(Some(told)) => story == told,
            _ => story.story@ == FALLBACK_STORY@,
        },
{
    match found {
        Ok(Some(told)) => told,
        _ => Story { story: FALLBACK_STORY.to_owned() },
    }
}

/// The cookie that goes with a background image: none where the domain of the site is
/// not known.
pub fn create_background_cookie(background_gif: String, domain: Option<String>) -> (cookie:
    Option<BackgroundCookie>)
    ensures
        match domain {
            Some(site) => cookie matches Some(made) && made.name@ == "background"@ && made.value
                == background_gif && made.domain == site && made.path@ == "/"@
                && made.same_site_strict && made.session_only,
            None => cookie is None,
        },
{
    match domain {
        Some(site) => Some(
            BackgroundCookie {
                name: "background".to_owned(),
                value: background_gif,
                domain: site,
                path: "/".to_owned(),
                same_site_strict: true,
                session_only: true,
            },
        ),
        None => None,
    }
}

/// The background image that stands at `index` in the collections, and the fallback
/// where the collection ends before `index`.
pub fn get_background_gif(mongo: &Mongo, index: u64) -> (gif: BackgroundGIF)
    ensures
        index < mongo.backgrounds_collection@.len() ==> gif.link
            == mongo.backgrounds_collection@[index as int].link,
        index >= mongo.backgrounds_collection@.len() ==> gif.link@ == FALLBACK_GIF@,
{
    let found = if index < mongo.backgrounds_collection.len() as u64 {
        Some(
            BackgroundGIF { link: mongo.backgrounds_collection[index as usize].link.clone() },
        )
    } else {
        None
    };
    background_or_fallback(Ok(found))
}

/// The story that stands at `index` in the collections, and the fallback where the
/// collection ends before `index`.
pub fn story(mongo: &Mongo, index: u64) -> (told: Story)
    ensures
        index < mongo.stories_collection@.len() ==> told.story
            == mongo.stories_collection@[index as int].story,
        index >= mongo.stories_collection@.len() ==> told.story@ == FALLBACK_STORY@,
{
    let found = if index < mongo.stories_collection.len() as u64 {
        Some(Story { story: mongo.stories_collection[index as usize].story.clone() })
    } else {
        None
    };
    story_or_fallback(Ok(found))
}

} // verus!
