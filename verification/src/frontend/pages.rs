//! What the pages make of the server's answers, and the texts they are built from.

use crate::frontend::blog::{AllPosts, PostData};
use crate::frontend::response::Response;
use crate::frontend::story::Story;
use crate::text::followed_by;
use pulldown_cmark::{html, Options, Parser};
use vstd::prelude::*;
use vstd::string::*;

verus! {

/// The status of an answer that holds what was asked for.
pub const OK: u16 = 200;

/// How a request to the server went.
#[derive(Debug)]
pub enum Fetched<T> {
    /// The request did not get through.
    Failed { error: String },
    /// The server answered with `status`; `body` is what reading the answer came to.
    Answered { status: u16, body: Result<T, String> },
}

/// The HTML that pulldown-cmark makes of a Markdown text, with heading attributes, smart
/// punctuation, strikethrough and tables switched on.
pub uninterp spec fn markdown_html(markdown: Seq<char>) -> Seq<char>;

/// The script that puts `html` into the element `element_id` as soon as the element is
/// there, then has the code in it highlighted and stops watching.
pub open spec fn injection_script(element_id: Seq<char>, html: Seq<char>) -> Seq<char> {
    "\n            const contentDiv = document.getElementById('"@ + element_id
        + "');\n            if (contentDiv) {\n              contentDiv.innerHTML = `"@ + html
        + "`;\n              hljs.highlightAll();\n\n              observer.disconnect();\n\n              return;\n            }\n        "@
}

/// A failure on the server's side with the message `what` followed by `why`.
pub open spec fn is_failure(response: Response, what: Seq<char>, why: Seq<char>) -> bool {
    response.status_code == 500 && response.message@ == what + why
}

/// Calls pulldown-cmark's `Parser::new_ext`, with the options `ENABLE_HEADING_ATTRIBUTES`,
/// `ENABLE_SMART_PUNCTUATION`, `ENABLE_STRIKETHROUGH` and `ENABLE_TABLES`, and
/// `html::push_html`.
///
/// Trusted: the result is `markdown_html` of the input, that is, it depends on the input
/// text alone.
#[verifier::external_body]
fn render_markdown(markdown: &str) -> (rendered: String)
    ensures
        rendered@ == markdown_html(markdown@),
{
    let mut options = Options::empty();
    options.insert(Options::ENABLE_HEADING_ATTRIBUTES);
    options.insert(Options::ENABLE_SMART_PUNCTUATION);
    options.insert(Options::ENABLE_STRIKETHROUGH);
    options.insert(Options::ENABLE_TABLES);
    let mut rendered = String::new();
    html::push_html(&mut rendered, Parser::new_ext(markdown, options));
    rendered
}

/// The body of a post as HTML.
pub fn create_post_body(post_body: &str) -> (rendered: String)
    ensures
        rendered@ == markdown_html(post_body@),
{
    render_markdown(post_body)
}

/// The script that puts `html` into the element `element_id`.
pub fn script_for(element_id: &str, html: &str) -> (script: String)
    ensures
        script@ == injection_script(element_id@, html@),
{
    let mut script = followed_by(
        "\n            const contentDiv = document.getElementById('",
        element_id,
    );
    script.append("');\n            if (contentDiv) {\n              contentDiv.innerHTML = `");
    script.append(html);
    script.append(
        "`;\n              hljs.highlightAll();\n\n              observer.disconnect();\n\n              return;\n            }\n        ",
    );
    script
}

/// The script that puts the body of a post, written in Markdown, into the element
/// `element_id`.
pub fn inject_post_body(element_id: &str, post_body: &str) -> (script: String)
    ensures
        script@ == injection_script(element_id@, markdown_html(post_body@)),
{
    let rendered = create_post_body(post_body);
    script_for(element_id, rendered.as_str())
}

/// A failure on the server's side with the message `what` followed by `why`.
pub fn failure(what: &str, why: &str) -> (response: Response)
    ensures
        is_failure(response, what@, why@),
{
    Response::status_500_with_message(followed_by(what, why))
}

/// What the map page makes of the answer to its request for the Chicago data: the data
/// from an answer with status 200 that could be read, and a failure else.
pub fn chiraq_reply<T>(fetched: Fetched<T>) -> (reply: Result<T, Response>)
    ensures
        match fetched {
            Fetched::Failed { error } => reply matches Err(response) && is_failure(
                response,
                "UNABLE TO GET CHIRAQ DATA FROM THE API: "@,
                error@,
            ),
            Fetched::Answered { status, body } => if status == OK {
                match body {
                    Ok(data) => reply == Ok::<T, Response>(data),
                    Err(error) => reply matches Err(response) && is_failure(
                        response,
                        "UNABLE TO PARSE CHIRAQ DATA TO JSON: "@,
                        error@,
                    ),
                }
            } else {
                reply matches Err(response) && is_failure(
                    response,
                    "No API response"@,
                    Seq::empty(),
                )
            },
        },
{
    match fetched {
        Fetched::Failed { error } => Err(
            failure("UNABLE TO GET CHIRAQ DATA FROM THE API: ", error.as_str()),
        ),
        Fetched::Answered { status, body } => {
            if status == OK {
                match body {
                    Ok(data) => Ok(data),
                    Err(error) => Err(
                        failure("UNABLE TO PARSE CHIRAQ DATA TO JSON: ", error.as_str()),
                    ),
                }
            } else {
                proof {
                    reveal_strlit("");
                }
                Err(failure("No API response", ""))
            }
        },
    }
}

/// What the blog page makes of the answer to its request for all posts: the posts, the
/// newest first, from an answer that could be read, and a failure else.
pub fn posts_reply(fetched: Fetched<AllPosts>) -> (reply: Result<AllPosts, Response>)
    ensures
        match fetched {
            Fetched::Failed { error } => reply matches Err(response) && is_failure(
                response,
                "UNABLE TO GET POSTS FROM THE API: "@,
                error@,
            ),
            Fetched::Answered { status, body } => match body {
                Ok(all) => reply matches Ok(shown) && shown.posts@ == all.posts@.reverse(),
                Err(error) => reply matches Err(response) && is_failure(
                    response,
                    "UNABLE TO PARSE THE POSTS TO JSON: "@,
                    error@,
                ),
            },
        },
{
    match fetched {
        Fetched::Failed { error } => Err(
            failure("UNABLE TO GET POSTS FROM THE API: ", error.as_str()),
        ),
        Fetched::Answered { status: _, body } => match body {
            Ok(all) => Ok(all.newest_first()),
            Err(error) => Err(failure("UNABLE TO PARSE THE POSTS TO JSON: ", error.as_str())),
        },
    }
}

/// What the page of a post makes of an answer with status 200: the post where the answer
/// could be read, and a failure else.
pub fn post_found(body: Result<PostData, String>) -> (reply: Result<PostData, Response>)
    ensures
        match body {
            Ok(post) => reply == Ok::<PostData, Response>(post),
            Err(error) => reply matches Err(response) && is_failure(
                response,
                "UNABLE TO PARSE THE POST DATA TO JSON: "@,
                error@,
            ),
        },
{
    match body {
        Ok(post) => Ok(post),
        Err(error) => Err(failure("UNABLE TO PARSE THE POST DATA TO JSON: ", error.as_str())),
    }
}

/// What the page of a post makes of an answer with another status: the message that the
/// server sent where it could be read, and a failure else.
pub fn post_refused(body: Result<Response, String>) -> (response: Response)
    ensures
        match body {
            Ok(sent) => response == sent,
            Err(_) => is_failure(response, "No API response."@, Seq::empty()),
        },
{
    match body {
        Ok(sent) => sent,
        Err(_) => {
            proof {
                reveal_strlit("");
            }
            failure("No API response.", "")
        },
    }
}

/// What the page of a post makes of a request that did not get through.
pub fn post_unreachable(error: &str) -> (response: Response)
    ensures
        is_failure(response, "UNABLE TO GET THE POST FROM THE API: "@, error@),
{
    failure("UNABLE TO GET THE POST FROM THE API: ", error)
}

/// What the page for addresses that lead nowhere makes of the answer to its request for a
/// story: the story from an answer with status 200 that could be read, and none else.
pub fn story_reply(fetched: Fetched<Story>) -> (reply: Option<Story>)
    ensures
        match fetched {
            Fetched::Answered { status, body: Ok(story) } if status == OK => reply == Some(
                story,
            ),
            _ => reply is None,
        },
{
    match fetched {
        Fetched::Failed { .. } => None,
        Fetched::Answered { status, body } => {
            if status == OK {
                match body {
                    Ok(story) => Some(story),
                    Err(_) => None,
                }
            } else {
                None
            }
        },
    }
}

/// Whether the map can be drawn: both data sets are lists, and neither is empty. The
/// arguments are the lengths of the lists, `None` for what is no list.
pub fn map_is_ready(shotspotter: Option<usize>, violence: Option<usize>) -> (ready: bool)
    ensures
        ready == match (shotspotter, violence) {
            (Some(shots), Some(victims)) => shots > 0 && victims > 0,
            _ => false,
        },
{
    match (shotspotter, violence) {
        (Some(shots), Some(victims)) => shots > 0 && victims > 0,
        _ => false,
    }
}

/// The label of a range of dates: the earliest, a minus sign, the latest.
pub fn create_date_range_labels(time_range: &(String, String)) -> (label: String)
    ensures
        label@ == time_range.0@ + " \u{2212} "@ + time_range.1@,
{
    let mut label = followed_by(time_range.0.as_str(), " \u{2212} ");
    label.append(time_range.1.as_str());
    label
}

/// The path under which the server gives the post `post_id`.
pub fn post_api_path(post_id: &str) -> (path: String)
    ensures
        path@ == "/api/blog/post/"@ + post_id@,
{
    followed_by("/api/blog/post/", post_id)
}

/// The path of the page of the post `post_id`.
pub fn post_link(post_id: &str) -> (path: String)
    ensures
        path@ == "/blog/post/"@ + post_id@,
{
    followed_by("/blog/post/", post_id)
}

/// The title of the page of a post.
pub fn post_title(title: &str) -> (shown: String)
    ensures
        shown@ == "jl | blog | "@ + title@,
{
    followed_by("jl | blog | ", title)
}

} // verus!
