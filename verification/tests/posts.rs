use stacc::api::errors::StaccResponseError;
use stacc::api::mongo::Mongo;
use stacc::api::post::PostData;
use stacc::api::posts::{all_posts_reply, get_all_posts, get_single_post, single_post_reply};

fn entry(post_id: &str, view_count: i32) -> PostData {
    PostData {
        body: format!("body of {post_id}"),
        created: "2023-01-01".to_string(),
        edited: Some("2023-01-02".to_string()),
        post_id: post_id.to_string(),
        preview_image_link: "link".to_string(),
        preview_summary: "summary".to_string(),
        title: format!("title of {post_id}"),
        view_count,
    }
}

fn store() -> Mongo {
    let mut mongo = Mongo::new();
    mongo.posts_collection.push(entry("alpha", 0));
    mongo.posts_collection.push(entry("beta", 41));
    mongo.posts_collection.push(entry("beta", 7));
    mongo
}

#[test]
fn fetching_a_post_adds_exactly_one_view() {
    let mut mongo = store();
    for views in 42..47 {
        let post = get_single_post(&mut mongo, "beta").expect("the post is there");
        assert_eq!(post.view_count, views);
        assert_eq!(post.post_id, "beta");
        assert_eq!(post.body, "body of beta");
        assert_eq!(post.edited.as_deref(), Some("2023-01-02"));
        assert_eq!(mongo.posts_collection[1].view_count, views);
        assert_eq!(mongo.posts_collection[0].view_count, 0);
        assert_eq!(mongo.posts_collection[2].view_count, 7);
    }
    assert_eq!(mongo.posts_collection.len(), 3);
}

#[test]
fn a_missing_post_is_not_found_and_nothing_is_counted() {
    let mut mongo = store();
    let error = get_single_post(&mut mongo, "missing-id").expect_err("there is no such post");
    assert!(matches!(error, StaccResponseError::MongoDBSearchError { .. }));
    assert_eq!(error.status_code(), 404);
    assert_eq!(error.message(), "MongoDB search error: Post not found!");
    assert!(error.message().to_lowercase().contains("not found"));
    let body = error.error_response();
    assert_eq!(body.status_code, 404);
    assert_eq!(body.message, "MongoDB search error: Post not found!");
    let views: Vec<i32> = mongo.posts_collection.iter().map(|post| post.view_count).collect();
    assert_eq!(views, vec![0, 41, 7]);
}

#[test]
fn a_missing_post_in_an_empty_store_is_not_found() {
    let mut mongo = Mongo::new();
    let error = get_single_post(&mut mongo, "missing-id").expect_err("the store is empty");
    assert_eq!(error.status_code(), 404);
    assert!(mongo.posts_collection.is_empty());
}

#[test]
fn all_posts_come_in_the_order_of_the_store() {
    let mongo = store();
    let all = get_all_posts(&mongo);
    let listed: Vec<(String, i32)> =
        all.posts.iter().map(|post| (post.post_id.clone(), post.view_count)).collect();
    assert_eq!(
        listed,
        vec![("alpha".to_string(), 0), ("beta".to_string(), 41), ("beta".to_string(), 7)]
    );
    assert_eq!(mongo.posts_collection.len(), 3);
    assert!(get_all_posts(&Mongo::new()).posts.is_empty());
}

#[test]
fn single_post_reply_tells_found_from_missing_from_failed() {
    let found = single_post_reply(Ok(Some(entry("alpha", 3)))).expect("found");
    assert_eq!(found.post_id, "alpha");
    assert_eq!(found.view_count, 3);
    match single_post_reply(Ok(None)) {
        Err(StaccResponseError::MongoDBSearchError { error }) => assert_eq!(error, "Post not found!"),
        other => panic!("unexpected reply {other:?}"),
    }
    match single_post_reply(Err("connection reset".to_string())) {
        Err(error @ StaccResponseError::MongoDBError { .. }) => {
            assert_eq!(error.status_code(), 500);
            assert_eq!(error.message(), "MongoDB error: connection reset");
        }
        other => panic!("unexpected reply {other:?}"),
    }
}

#[test]
fn all_posts_reply_stops_at_the_first_failure() {
    let all = all_posts_reply(Ok(vec![Ok(entry("a", 1)), Ok(entry("b", 2))])).expect("all read");
    let ids: Vec<&str> = all.posts.iter().map(|post| post.post_id.as_str()).collect();
    assert_eq!(ids, vec!["a", "b"]);
    assert!(all_posts_reply(Ok(vec![])).expect("none to read").posts.is_empty());
    match all_posts_reply(Ok(vec![
        Ok(entry("a", 1)),
        Err("bad document".to_string()),
        Ok(entry("c", 3)),
        Err("worse document".to_string()),
    ])) {
        Err(StaccResponseError::MongoDBError { error }) => assert_eq!(error, "bad document"),
        other => panic!("unexpected reply {other:?}"),
    }
    match all_posts_reply(Err("no cursor".to_string())) {
        Err(StaccResponseError::MongoDBError { error }) => assert_eq!(error, "no cursor"),
        other => panic!("unexpected reply {other:?}"),
    }
}

#[test]
fn a_copy_of_a_post_is_the_post() {
    let post = entry("alpha", 3);
    let copy = post.clone();
    assert_eq!(copy.body, post.body);
    assert_eq!(copy.created, post.created);
    assert_eq!(copy.edited, post.edited);
    assert_eq!(copy.post_id, post.post_id);
    assert_eq!(copy.preview_image_link, post.preview_image_link);
    assert_eq!(copy.preview_summary, post.preview_summary);
    assert_eq!(copy.title, post.title);
    assert_eq!(copy.view_count, post.view_count);
}
