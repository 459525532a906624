//! Blog posts as the document store holds them.

use vstd::prelude::*;
use vstd::string::*;

verus! {

/// A blog post.
#[derive(Debug)]
pub struct PostData {
    /// The text of the post.
    pub body: String,
    /// When the post was written.
    pub created: String,
    /// When the post was last edited, if it ever was.
    pub edited: Option<String>,
    /// The identifier of the post.
    pub post_id: String,
    /// The link to the preview image.
    pub preview_image_link: String,
    /// The summary shown in the preview.
    pub preview_summary: String,
    /// The title of the post.
    pub title: String,
    /// How often the post was fetched.
    pub view_count: i32,
}

impl Clone for PostData {
    fn clone(&self) -> (copy: Self)
        ensures
            copy == *self,
    {
        PostData {
            body: self.body.clone(),
            created: self.created.clone(),
            edited: self.edited.clone(),
            post_id: self.post_id.clone(),
            preview_image_link: self.preview_image_link.clone(),
            preview_summary: self.preview_summary.clone(),
            title: self.title.clone(),
            view_count: self.view_count,
        }
    }
}

/// All posts, in the order in which the store gave them.
#[derive(Debug)]
pub struct AllPosts {
    /// The posts.
    pub posts: Vec<PostData>,
}

} // verus!
