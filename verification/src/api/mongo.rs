//! The collections of the document store, as the server's logic sees them: each a list of
//! documents in the order in which they were inserted, changed one document at a time.
//!
//! An update finds the first document that carries the key it looks for.

use crate::api::data::{BackgroundGIF, Story};
use crate::api::post::PostData;
use crate::api::visitor::Visitor;
use crate::search::{first_index_of, lemma_first_index_unique};
use crate::tally::{bump, count_of, FrequencyTable};
use crate::text::{followed_by, same_text};
use vstd::prelude::*;
use vstd::string::*;

verus! {

/// The four collections.
#[derive(Debug)]
pub struct Mongo {
    /// The links to the background images.
    pub backgrounds_collection: Vec<BackgroundGIF>,
    /// The posts.
    pub posts_collection: Vec<PostData>,
    /// The stories.
    pub stories_collection: Vec<Story>,
    /// The visitors.
    pub visitor_collection: Vec<Visitor>,
}

/// The addresses of `visitors`, one for each record.
pub open spec fn addresses(visitors: Seq<Visitor>) -> Seq<Seq<char>> {
    visitors.map_values(|visitor: Visitor| visitor.ip_address@)
}

/// The identifiers of `posts`, one for each post.
pub open spec fn post_ids(posts: Seq<PostData>) -> Seq<Seq<char>> {
    posts.map_values(|post: PostData| post.post_id@)
}

/// `after` is `before` seen once more at `now`: one more visit, and `now` as the date
/// of the last one.
pub open spec fn is_return_visit(before: Visitor, after: Visitor, now: Seq<char>) -> bool {
    &&& after.first_visit_date == before.first_visit_date
    &&& after.ip_address == before.ip_address
    &&& after.ip_data == before.ip_data
    &&& after.last_visit_date matches Some(date) && date@ == now
    &&& after.refresh_count == before.refresh_count + 1
    &&& after.visited_posts@ == before.visited_posts@
}

/// `after` is `before` with one more fetch of `post_id` counted.
pub open spec fn is_post_visit(before: Visitor, after: Visitor, post_id: Seq<char>) -> bool {
    &&& after.first_visit_date == before.first_visit_date
    &&& after.ip_address == before.ip_address
    &&& after.ip_data == before.ip_data
    &&& after.last_visit_date == before.last_visit_date
    &&& after.refresh_count == before.refresh_count
    &&& after.visited_posts@ == bump(before.visited_posts@, post_id)
}

/// The record that the store makes where a fetch of `post_id` comes from an address of
/// which it holds none: the address and the one fetch, and nothing else; it counts no
/// visit, and the dates that the store leaves out are empty.
pub open spec fn is_post_visitor(visitor: Visitor, ip_address: Seq<char>, post_id: Seq<char>) -> bool {
    &&& visitor.first_visit_date@ == Seq::<char>::empty()
    &&& visitor.ip_address@ == ip_address
    &&& visitor.ip_data is None
    &&& visitor.last_visit_date is None
    &&& visitor.refresh_count == 0
    &&& visitor.visited_posts@ == bump(Seq::empty(), post_id)
}

/// What inserting `visitor` makes of the visitors: it stands at the end, unless a record
/// of its address is there by now; then the first such record counts one more visit, at
/// the date at which `visitor` was first seen, and `visitor` is dropped.
pub open spec fn visitor_settled(before: Seq<Visitor>, after: Seq<Visitor>, visitor: Visitor) -> bool {
    let at = first_index_of(addresses(before), visitor.ip_address@);
    if at < before.len() {
        same_but_at(before, after, at) && is_return_visit(
            before[at],
            after[at],
            visitor.first_visit_date@,
        )
    } else {
        after == before.push(visitor)
    }
}

/// What a fetch of `post_id` from `ip_address` makes of the visitors: the first record
/// that comes from there counts one more fetch of the post, and where there is none, one
/// is made that holds the address and the fetch.
pub open spec fn post_visit_recorded(
    before: Seq<Visitor>,
    after: Seq<Visitor>,
    ip_address: Seq<char>,
    post_id: Seq<char>,
) -> bool {
    let at = first_index_of(addresses(before), ip_address);
    if at < before.len() {
        same_but_at(before, after, at) && is_post_visit(before[at], after[at], post_id)
    } else {
        &&& after.len() == before.len() + 1
        &&& forall|j: int| 0 <= j < before.len() ==> #[trigger] after[j] == before[j]
        &&& is_post_visitor(after.last(), ip_address, post_id)
    }
}

/// `after` is `before` fetched once more.
pub open spec fn is_viewed(before: PostData, after: PostData) -> bool {
    after == (PostData { view_count: (before.view_count + 1) as i32, ..before })
}

/// `after` is `before` but for the document at `at`.
pub open spec fn same_but_at<T>(before: Seq<T>, after: Seq<T>, at: int) -> bool {
    &&& after.len() == before.len()
    &&& forall|j: int| 0 <= j < before.len() && j != at ==> #[trigger] after[j] == before[j]
}

impl Mongo {
    /// Whether the visitors of `self` and `other` are all that may differ between them.
    pub open spec fn same_but_visitors(&self, other: &Mongo) -> bool {
        &&& self.backgrounds_collection == other.backgrounds_collection
        &&& self.posts_collection == other.posts_collection
        &&& self.stories_collection == other.stories_collection
    }

    /// Whether the posts of `self` and `other` are all that may differ between them.
    pub open spec fn same_but_posts(&self, other: &Mongo) -> bool {
        &&& self.backgrounds_collection == other.backgrounds_collection
        &&& self.stories_collection == other.stories_collection
        &&& self.visitor_collection == other.visitor_collection
    }

    /// The index of the first visitor that comes from `ip_address`, or the number of
    /// visitors where none does.
    pub open spec fn visitor_at(&self, ip_address: Seq<char>) -> int {
        first_index_of(addresses(self.visitor_collection@), ip_address)
    }

    /// The index of the first post with the identifier `post_id`, or the number of posts
    /// where there is none.
    pub open spec fn post_at(&self, post_id: Seq<char>) -> int {
        first_index_of(post_ids(self.posts_collection@), post_id)
    }

    /// Empty collections.
    pub fn new() -> (mongo: Self)
        ensures
            mongo.backgrounds_collection@.len() == 0,
            mongo.posts_collection@.len() == 0,
            mongo.stories_collection@.len() == 0,
            mongo.visitor_collection@.len() == 0,
    {
        Mongo {
            backgrounds_collection: Vec::new(),
            posts_collection: Vec::new(),
            stories_collection: Vec::new(),
            visitor_collection: Vec::new(),
        }
    }

    /// Finds the first visitor that comes from `ip_address`.
    pub fn find_visitor(&self, ip_address: &str) -> (at: usize)
        ensures
            at == self.visitor_at(ip_address@),
            at <= self.visitor_collection@.len(),
            at < self.visitor_collection@.len() ==> self.visitor_collection@[at as int].ip_address@
                == ip_address@,
    {
        let mut i: usize = 0;
        while i < self.visitor_collection.len() && !same_text(
            self.visitor_collection[i].ip_address.as_str(),
            ip_address,
        )
            invariant
                i <= self.visitor_collection.len(),
                forall|j: int| 0 <= j < i ==> addresses(self.visitor_collection@)[j] != ip_address@,
            decreases self.visitor_collection.len() - i,
        {
            i += 1;
        }
        proof {
            lemma_first_index_unique(addresses(self.visitor_collection@), ip_address@, i as int);
        }
        i
    }

    /// Finds the first post with the identifier `post_id`.
    pub fn find_post(&self, post_id: &str) -> (at: usize)
        ensures
            at == self.post_at(post_id@),
            at <= self.posts_collection@.len(),
            at < self.posts_collection@.len() ==> self.posts_collection@[at as int].post_id@
                == post_id@,
    {
        let mut i: usize = 0;
        while i < self.posts_collection.len() && !same_text(
            self.posts_collection[i].post_id.as_str(),
            post_id,
        )
            invariant
                i <= self.posts_collection.len(),
                forall|j: int| 0 <= j < i ==> post_ids(self.posts_collection@)[j] != post_id@,
            decreases self.posts_collection.len() - i,
        {
            i += 1;
        }
        proof {
            lemma_first_index_unique(post_ids(self.posts_collection@), post_id@, i as int);
        }
        i
    }

    /// Counts one more visit from `ip_address`, at `now`, on the first record that comes
    /// from there. Tells whether there was such a record; where there was none, nothing
    /// changes.
    pub fn touch_visitor(&mut self, ip_address: &str, now: String) -> (found: bool)
        requires
            old(self).visitor_at(ip_address@) < old(self).visitor_collection@.len() ==> old(
                self,
            ).visitor_collection@[old(self).visitor_at(ip_address@)].refresh_count < i32::MAX,
        ensures
            found == (old(self).visitor_at(ip_address@) < old(self).visitor_collection@.len()),
            final(self).same_but_visitors(old(self)),
            !found ==> final(self).visitor_collection@ == old(self).visitor_collection@,
            found ==> same_but_at(
                old(self).visitor_collection@,
                final(self).visitor_collection@,
                old(self).visitor_at(ip_address@),
            ) && is_return_visit(
                old(self).visitor_collection@[old(self).visitor_at(ip_address@)],
                final(self).visitor_collection@[old(self).visitor_at(ip_address@)],
                now@,
            ),
    {
        let at = self.find_visitor(ip_address);
        if at < self.visitor_collection.len() {
            let visitor = &mut self.visitor_collection[at];
            visitor.refresh_count = visitor.refresh_count + 1;
            visitor.last_visit_date = Some(now);
            true
        } else {
            false
        }
    }

    /// Inserts the record of a new visitor, in one step: it is added at the end, unless a
    /// record of its address is there by now; then that record counts one more visit
    /// instead, at the date at which the new visitor was first seen. Tells whether the
    /// record was added.
    pub fn insert_visitor(&mut self, visitor: Visitor) -> (added: bool)
        requires
            old(self).visitor_at(visitor.ip_address@) < old(self).visitor_collection@.len() ==> old(
                self,
            ).visitor_collection@[old(self).visitor_at(visitor.ip_address@)].refresh_count
                < i32::MAX,
        ensures
            added == (old(self).visitor_at(visitor.ip_address@) == old(
                self,
            ).visitor_collection@.len()),
            final(self).same_but_visitors(old(self)),
            visitor_settled(old(self).visitor_collection@, final(self).visitor_collection@, visitor),
    {
        let at = self.find_visitor(visitor.ip_address.as_str());
        if at < self.visitor_collection.len() {
            let found = &mut self.visitor_collection[at];
            found.refresh_count = found.refresh_count + 1;
            found.last_visit_date = Some(visitor.first_visit_date);
            false
        } else {
            self.visitor_collection.push(visitor);
            true
        }
    }

    /// Counts one more fetch of `post_id` on the first record that comes from
    /// `ip_address`, in one step; where there is no such record, one is made that holds
    /// the address and the fetch. Tells whether there was such a record.
    pub fn count_post_visit(&mut self, ip_address: &str, post_id: &str) -> (found: bool)
        requires
            old(self).visitor_at(ip_address@) < old(self).visitor_collection@.len() ==> count_of(
                old(self).visitor_collection@[old(self).visitor_at(ip_address@)].visited_posts@,
                post_id@,
            ) < u64::MAX,
        ensures
            found == (old(self).visitor_at(ip_address@) < old(self).visitor_collection@.len()),
            final(self).same_but_visitors(old(self)),
            post_visit_recorded(
                old(self).visitor_collection@,
                final(self).visitor_collection@,
                ip_address@,
                post_id@,
            ),
    {
        let at = self.find_visitor(ip_address);
        if at < self.visitor_collection.len() {
            let visitor = &mut self.visitor_collection[at];
            visitor.visited_posts.insert_or_increment(post_id);
            true
        } else {
            let mut visited_posts = FrequencyTable::new();
            visited_posts.insert_or_increment(post_id);
            self.visitor_collection.push(
                Visitor {
                    first_visit_date: String::new(),
                    ip_address: ip_address.to_owned(),
                    ip_data: None,
                    last_visit_date: None,
                    refresh_count: 0,
                    visited_posts,
                },
            );
            false
        }
    }

    /// Counts one more fetch of the first post with the identifier `post_id`, and gives
    /// the post as it is after that. Where there is no such post, nothing changes.
    pub fn increment_views(&mut self, post_id: &str) -> (found: Option<PostData>)
        requires
            old(self).post_at(post_id@) < old(self).posts_collection@.len() ==> old(
                self,
            ).posts_collection@[old(self).post_at(post_id@)].view_count < i32::MAX,
        ensures
            found is Some == (old(self).post_at(post_id@) < old(self).posts_collection@.len()),
            final(self).same_but_posts(old(self)),
            found is None ==> final(self).posts_collection@ == old(self).posts_collection@,
            found matches Some(post) ==> same_but_at(
                old(self).posts_collection@,
                final(self).posts_collection@,
                old(self).post_at(post_id@),
            ) && is_viewed(old(self).posts_collection@[old(self).post_at(post_id@)], post)
                && final(self).posts_collection@[old(self).post_at(post_id@)] == post,
    {
        let at = self.find_post(post_id);
        if at < self.posts_collection.len() {
            let post = &mut self.posts_collection[at];
            post.view_count = post.view_count + 1;
            Some(self.posts_collection[at].clone())
        } else {
            None
        }
    }
}

/// The address at which the document store is reached.
pub fn mongo_uri(user: &str, password: &str, host: &str) -> (uri: String)
    ensures
        uri@ == "mongodb://"@ + user@ + ":"@ + password@ + "@"@ + host@,
{
    let mut uri = followed_by("mongodb://", user);
    uri.append(":");
    uri.append(password);
    uri.append("@");
    uri.append(host);
    uri
}

} // verus!
