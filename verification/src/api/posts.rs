//! What the routes for posts answer.

use crate::api::errors::StaccResponseError;
use crate::api::mongo::{is_viewed, post_ids, same_but_at, Mongo};
use crate::api::post::{AllPosts, PostData};
use crate::search::{first_index_of, lemma_first_index_of};
use vstd::prelude::*;
use vstd::string::*;

verus! {

/// What is said of a post that is not there.
pub const POST_NOT_FOUND: &'static str = "Post not found!";

/// What a fetch of `post_id` makes of the posts: the first post with that identifier
/// was fetched once more, and where there is none, nothing changes.
pub open spec fn view_counted(before: Seq<PostData>, after: Seq<PostData>, post_id: Seq<char>) -> bool {
    let at = first_index_of(post_ids(before), post_id);
    if at < before.len() {
        same_but_at(before, after, at) && is_viewed(before[at], after[at])
    } else {
        after == before
    }
}

/// The index of the first failure among `documents`, or their number where none failed.
pub open spec fn first_failure(documents: Seq<Result<PostData, String>>) -> int
    decreases documents.len(),
{
    if documents.len() == 0 || documents[0] is Err {
        0
    } else {
        1 + first_failure(documents.drop_first())
    }
}

/// What `first_failure` finds: a failure stands there, if anywhere, and none before.
pub proof fn lemma_first_failure(documents: Seq<Result<PostData, String>>)
    ensures
        0 <= first_failure(documents) <= documents.len(),
        forall|j: int| 0 <= j < first_failure(documents) ==> (#[trigger] documents[j]) is Ok,
        first_failure(documents) < documents.len() ==> documents[first_failure(documents)] is Err,
    decreases documents.len(),
{
    if documents.len() > 0 && documents[0] is Ok {
        lemma_first_failure(documents.drop_first());
        assert forall|j: int| 0 <= j < first_failure(documents) implies (
        #[trigger] documents[j]) is Ok by {
            if j > 0 {
                assert(documents[j] == documents.drop_first()[j - 1]);
            }
        }
    }
}

/// The index that `first_failure` finds is the only one of its kind.
pub proof fn lemma_first_failure_unique(documents: Seq<Result<PostData, String>>, i: int)
    requires
        0 <= i <= documents.len(),
        forall|j: int| 0 <= j < i ==> (#[trigger] documents[j]) is Ok,
        i < documents.len() ==> documents[i] is Err,
    ensures
        first_failure(documents) == i,
{
    lemma_first_failure(documents);
    let k = first_failure(documents);
    if k < i {
        assert(documents[k] is Ok);
    } else if i < k {
        assert(documents[i] is Ok);
    }
}

/// The answer to a request for all posts, given what the store came up with: the posts in
/// the order of the store, or the failure of the query, or else the first failure among
/// the documents.
pub fn all_posts_reply(found: Result<Vec<Result<PostData, String>>, String>) -> (reply: Result<
    AllPosts,
    StaccResponseError,
>)
    ensures
        match found {
            Err(why) => reply matches Err(StaccResponseError::MongoDBError { error }) && error
                == why,
            Ok(documents) => {
                let at = first_failure(documents@);
                if at < documents@.len() {
                    reply matches Err(StaccResponseError::MongoDBError { error }) && Err::<
                        PostData,
                        String,
                    >(error) == documents@[at]
                } else {
                    reply matches Ok(all) && all.posts@.len() == documents@.len() && forall|
                        j: int,
                    |
                        0 <= j < documents@.len() ==> Ok::<PostData, String>(
                            #[trigger] all.posts@[j],
                        ) == documents@[j]
                }
            },
        },
{
    match found {
        Err(why) => Err(StaccResponseError::MongoDBError { error: why }),
        Ok(documents) => {
            let ghost all = documents@;
            let mut posts: Vec<PostData> = Vec::new();
            for document in iter: documents
                invariant
                    found matches Ok(given) && given@ == all,
                    iter.seq() == all,
                    posts@.len() == iter.index(),
                    forall|j: int|
                        0 <= j < posts@.len() ==> Ok::<PostData, String>(#[trigger] posts@[j])
                            == all[j],
            {
                match document {
                    Ok(post) => {
                        posts.push(post);
                    },
                    Err(why) => {
                        proof {
                            assert(all[posts@.len() as int] == Err::<PostData, String>(why));
                            assert forall|j: int| 0 <= j < posts@.len() implies (
                            #[trigger] all[j]) is Ok by {
                                assert(Ok::<PostData, String>(posts@[j]) == all[j]);
                            }
                            lemma_first_failure_unique(all, posts@.len() as int);
                        }
                        return Err(StaccResponseError::MongoDBError { error: why });
                    },
                }
            }
            proof {
                assert forall|j: int| 0 <= j < posts@.len() implies (#[trigger] all[j]) is Ok by {
                    assert(Ok::<PostData, String>(posts@[j]) == all[j]);
                }
                lemma_first_failure_unique(all, all.len() as int);
            }
            Ok(AllPosts { posts })
        },
    }
}

/// The answer to a request for one post, given what the store came up with: the post, or
/// that there is none, or that the store failed.
pub fn single_post_reply(found: Result<Option<PostData>, String>) -> (reply: Result<
    PostData,
    StaccResponseError,
>)
    ensures
        match found {
            Ok(Some(post)) => reply == Ok::<PostData, StaccResponseError>(post),
            Ok(None) => reply matches Err(StaccResponseError::MongoDBSearchError { error })
                && error@ == POST_NOT_FOUND@,
            Err(why) => reply matches Err(StaccResponseError::MongoDBError { error }) && error
                == why,
        },
{
    match found {
        Ok(Some(post)) => Ok(post),
        Ok(None) => Err(
            StaccResponseError::MongoDBSearchError { error: POST_NOT_FOUND.to_owned() },
        ),
        Err(why) => Err(StaccResponseError::MongoDBError { error: why }),
    }
}

/// All posts of the collections, in their order.
pub fn get_all_posts(mongo: &Mongo) -> (all: AllPosts)
    ensures
        all.posts@ == mongo.posts_collection@,
{
    let mut posts: Vec<PostData> = Vec::new();
    let mut i: usize = 0;
    while i < mongo.posts_collection.len()
        invariant
            i <= mongo.posts_collection.len(),
            posts@ == mongo.posts_collection@.take(i as int),
        decreases mongo.posts_collection.len() - i,
    {
        posts.push(mongo.posts_collection[i].clone());
        assert(posts@ =~= mongo.posts_collection@.take(i as int + 1));
        i += 1;
    }
    assert(mongo.posts_collection@.take(i as int) == mongo.posts_collection@);
    AllPosts { posts }
}

/// Fetches the post `post_id` from the collections: its counter goes up by one, and the
/// post is given as it is after that. Where there is no such post, the answer says so with
/// status 404, and nothing changes.
pub fn get_single_post(mongo: &mut Mongo, post_id: &str) -> (reply: Result<
    PostData,
    StaccResponseError,
>)
    requires
        old(mongo).post_at(post_id@) < old(mongo).posts_collection@.len() ==> old(
            mongo,
        ).posts_collection@[old(mongo).post_at(post_id@)].view_count < i32::MAX,
    ensures
        final(mongo).same_but_posts(old(mongo)),
        view_counted(old(mongo).posts_collection@, final(mongo).posts_collection@, post_id@),
        match reply {
            Ok(post) => old(mongo).post_at(post_id@) < old(mongo).posts_collection@.len() && post
                == final(mongo).posts_collection@[old(mongo).post_at(post_id@)]
                && post.view_count == old(mongo).posts_collection@[old(mongo).post_at(
                post_id@,
            )].view_count + 1,
            Err(error) => {
                &&& old(mongo).post_at(post_id@) == old(mongo).posts_collection@.len()
                &&& final(mongo).posts_collection@ == old(mongo).posts_collection@
                &&& error.status() == 404
                &&& error matches StaccResponseError::MongoDBSearchError { error: why }
                &&& why@ == POST_NOT_FOUND@
            },
        },
{
    proof {
        lemma_first_index_of(post_ids(mongo.posts_collection@), post_id@);
    }
    let found = mongo.increment_views(post_id);
    single_post_reply(Ok(found))
}

} // verus!
