//! Blog posts as the pages show them.

use vstd::prelude::*;
use vstd::string::*;

verus! {

/// A blog post.
#[derive(Debug)]
pub struct PostData {
    /// The text of the post.
    pub body: String,
    /// When the post was written.
    pub created: String,
    /// When the post was last edited, if it ever was.
    pub edited: Option<String>,
    /// The identifier of the post.
    pub post_id: String,
    /// The link to the preview image.
    pub preview_image_link: String,
    /// The summary shown in the preview.
    pub preview_summary: String,
    /// The title of the post.
    pub title: String,
    /// The topic of the post.
    pub topic: String,
    /// How often the post was fetched.
    pub view_count: i32,
}

impl Clone for PostData {
    fn clone(&self) -> (copy: Self)
        ensures
            copy == *self,
    {
        PostData {
            body: self.body.clone(),
            created: self.created.clone(),
            edited: self.edited.clone(),
            post_id: self.post_id.clone(),
            preview_image_link: self.preview_image_link.clone(),
            preview_summary: self.preview_summary.clone(),
            title: self.title.clone(),
            topic: self.topic.clone(),
            view_count: self.view_count,
        }
    }
}

impl PostData {
    /// A post of which only the identifier is known: every text empty, never edited and
    /// never fetched.
    pub fn from_post_id(post_id: String) -> (post: Self)
        ensures
            post.post_id == post_id,
            post.body@.len() == 0,
            post.created@.len() == 0,
            post.edited is None,
            post.preview_image_link@.len() == 0,
            post.preview_summary@.len() == 0,
            post.title@.len() == 0,
            post.topic@.len() == 0,
            post.view_count == 0,
    {
        Self {
            body: String::new(),
            created: String::new(),
            edited: None,
            post_id,
            preview_image_link: String::new(),
            preview_summary: String::new(),
            title: String::new(),
            topic: String::new(),
            view_count: 0,
        }
    }
}

/// All posts.
#[derive(Debug)]
pub struct AllPosts {
    /// The posts.
    pub posts: Vec<PostData>,
}

impl AllPosts {
    /// The posts in the opposite order: the store gives the oldest first, the page shows
    /// the newest first.
    pub fn newest_first(self) -> (turned: Self)
        ensures
            turned.posts@ == self.posts@.reverse(),
    {
        let ghost all = self.posts@;
        let mut posts = self.posts;
        let mut turned: Vec<PostData> = Vec::new();
        while posts.len() > 0
            invariant
                posts@.len() + turned@.len() == all.len(),
                forall|j: int| 0 <= j < posts@.len() ==> posts@[j] == all[j],
                forall|j: int|
                    0 <= j < turned@.len() ==> #[trigger] turned@[j] == all[all.len() - 1 - j],
            decreases posts@.len(),
        {
            let post = posts.pop().unwrap();
            turned.push(post);
        }
        assert(turned@ =~= all.reverse());
        AllPosts { posts: turned }
    }
}

} // verus!
