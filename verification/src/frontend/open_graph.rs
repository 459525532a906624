//! The Open Graph tags of a page.

use vstd::prelude::*;
use vstd::string::*;

verus! {

/// What kind of page a page is.
#[derive(Debug)]
pub enum PageType {
    /// The page holds an article.
    Article,
    /// Every other page.
    Website,
}

impl PageType {
    /// The word that Open Graph has for the kind of page.
    pub open spec fn word(&self) -> Seq<char> {
        match self {
            PageType::Article => "article"@,
            PageType::Website => "website"@,
        }
    }

    /// The word that Open Graph has for the kind of page.
    pub fn to_string(&self) -> (word: String)
        ensures
            word@ == self.word(),
    {
        match self {
            PageType::Article => "article".to_owned(),
            PageType::Website => "website".to_owned(),
        }
    }
}

/// An Open Graph tag to set on a page.
#[derive(Debug)]
pub enum OpenGraphTag {
    /// The description of the page.
    Description(String),
    /// The link to the image of the page.
    ImageLink(String),
    /// The kind of page.
    PageType(PageType),
    /// The title of the page.
    Title(String),
    /// The address of the page.
    Url(String),
}

impl OpenGraphTag {
    /// The `property` attribute of the tag.
    pub open spec fn property(&self) -> Seq<char> {
        match self {
            OpenGraphTag::Description(_) => "og:description"@,
            OpenGraphTag::ImageLink(_) => "og:image"@,
            OpenGraphTag::PageType(_) => "og:type"@,
            OpenGraphTag::Title(_) => "og:title"@,
            OpenGraphTag::Url(_) => "og:url"@,
        }
    }

    /// The `content` attribute of the tag.
    pub open spec fn content(&self) -> Seq<char> {
        match self {
            OpenGraphTag::Description(description) => description@,
            OpenGraphTag::ImageLink(link) => link@,
            OpenGraphTag::PageType(page_type) => page_type.word(),
            OpenGraphTag::Title(title) => title@,
            OpenGraphTag::Url(url) => url@,
        }
    }

    /// The tag as its `property` and `content` attributes.
    pub fn to_tuple(&self) -> (attributes: (String, String))
        ensures
            attributes.0@ == self.property(),
            attributes.1@ == self.content(),
    {
        match self {
            OpenGraphTag::Description(description) => (
                "og:description".to_owned(),
                description.clone(),
            ),
            OpenGraphTag::ImageLink(link) => ("og:image".to_owned(), link.clone()),
            OpenGraphTag::PageType(page_type) => ("og:type".to_owned(), page_type.to_string()),
            OpenGraphTag::Title(title) => ("og:title".to_owned(), title.clone()),
            OpenGraphTag::Url(url) => ("og:url".to_owned(), url.clone()),
        }
    }
}

} // verus!
