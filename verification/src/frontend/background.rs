//! The background image of the pages.

use crate::text::followed_by;
use vstd::prelude::*;
use vstd::string::*;

verus! {

/// The image that is shown while no other is known.
pub const STATIC_GIF: &'static str = "../../STATIC.gif";

/// Where the link to the background image is taken from.
#[derive(Debug)]
pub enum BackgroundSource {
    /// From the cookie, which holds this link.
    Cookie(String),
    /// From the server, which is asked for a new one.
    Server,
}

/// The value of the style property `background-image` for the image at `gif_link`: a dark
/// veil over the image.
pub open spec fn veiled_image(gif_link: Seq<char>) -> Seq<char> {
    "linear-gradient(rgba(0, 0, 0, 0.7), rgba(0, 0, 0, 0.7)), url("@ + gif_link + ")"@
}

/// The style of a page body with the image at `gif_link` as its background, as pairs of
/// property and value in the order in which they are set.
pub open spec fn background_style(gif_link: Seq<char>) -> Seq<(Seq<char>, Seq<char>)> {
    seq![
        ("background-attachment"@, "fixed"@),
        ("background-image"@, veiled_image(gif_link)),
        ("background-position"@, "center center"@),
        ("background-repeat"@, "no-repeat"@),
        ("background-size"@, "cover"@),
        ("height"@, "100vh"@),
        ("width"@, "100vw"@),
        ("overflow-x"@, "hidden"@),
    ]
}

/// The texts of a list of pairs.
pub open spec fn pairs_view(pairs: Seq<(String, String)>) -> Seq<(Seq<char>, Seq<char>)> {
    pairs.map_values(|pair: (String, String)| (pair.0@, pair.1@))
}

/// Where the link to the background image is taken from: from the cookie where one is
/// set and no new image is asked for, else from the server.
pub fn set_background(force_refresh: bool, cookie: Option<String>) -> (source: BackgroundSource)
    ensures
        match cookie {
            Some(link) if !force_refresh => source == BackgroundSource::Cookie(link),
            _ => source is Server,
        },
{
    if force_refresh {
        BackgroundSource::Server
    } else {
        match cookie {
            Some(link) => BackgroundSource::Cookie(link),
            None => BackgroundSource::Server,
        }
    }
}

/// The link to show after the server was asked for a new image: the one that the cookie
/// then holds, and the static image where the cookie holds none.
pub fn get_new_background(cookie: Option<String>) -> (gif_link: String)
    ensures
        match cookie {
            Some(link) => gif_link == link,
            None => gif_link@ == STATIC_GIF@,
        },
{
    match cookie {
        Some(link) => link,
        None => STATIC_GIF.to_owned(),
    }
}

/// The style of a page body with the image at `gif_link` as its background, as pairs of
/// property and value in the order in which they are set.
pub fn set_background_gif(gif_link: &str) -> (style: Vec<(String, String)>)
    ensures
        pairs_view(style@) == background_style(gif_link@),
{
    let mut image = followed_by(
        "linear-gradient(rgba(0, 0, 0, 0.7), rgba(0, 0, 0, 0.7)), url(",
        gif_link,
    );
    image.append(")");
    let mut style: Vec<(String, String)> = Vec::new();
    style.push(("background-attachment".to_owned(), "fixed".to_owned()));
    style.push(("background-image".to_owned(), image));
    style.push(("background-position".to_owned(), "center center".to_owned()));
    style.push(("background-repeat".to_owned(), "no-repeat".to_owned()));
    style.push(("background-size".to_owned(), "cover".to_owned()));
    style.push(("height".to_owned(), "100vh".to_owned()));
    style.push(("width".to_owned(), "100vw".to_owned()));
    style.push(("overflow-x".to_owned(), "hidden".to_owned()));
    assert(pairs_view(style@) =~= background_style(gif_link@));
    style
}

} // verus!
