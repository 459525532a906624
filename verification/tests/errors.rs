use stacc::api::chicago::{get_vhnfs_shotspotter_data, parse_data_set};
use stacc::api::checks::{contains_name, missing_variables, run_environment_checks, ENVIRONMENT_VARIABLES};
use stacc::api::data::{BackgroundGIF, Story};
use stacc::api::environment::{EnvironmentVariables, NOT_PRESENT};
use stacc::api::errors::{StaccError, StaccResponseError};
use stacc::api::misc::{
    background_or_fallback, chicago_failure, count_failure, create_background_cookie,
    get_background_gif, random_index, story, story_or_fallback, FALLBACK_GIF, FALLBACK_STORY,
};
use stacc::api::mongo::Mongo;

#[test]
fn each_failure_has_its_status_and_message() {
    let chicago = StaccResponseError::ChicagoAPIError { error: "portal down".to_string() };
    assert_eq!(chicago.status_code(), 500);
    assert_eq!(chicago.message(), "Chicago API error: portal down");
    let store = StaccResponseError::MongoDBError { error: "timeout".to_string() };
    assert_eq!(store.status_code(), 500);
    assert_eq!(store.message(), "MongoDB error: timeout");
    let search = StaccResponseError::MongoDBSearchError { error: "Post not found!".to_string() };
    assert_eq!(search.status_code(), 404);
    assert_eq!(search.message(), "MongoDB search error: Post not found!");
}

#[test]
fn the_error_body_mirrors_the_status() {
    for error in [
        StaccResponseError::ChicagoAPIError { error: "a".to_string() },
        StaccResponseError::MongoDBError { error: "b".to_string() },
        StaccResponseError::MongoDBSearchError { error: "c".to_string() },
    ] {
        let body = error.error_response();
        assert_eq!(body.status_code, error.status_code());
        assert_eq!(body.message, error.message());
    }
}

#[test]
fn lower_failures_name_their_kind() {
    assert_eq!(StaccError::Environment("x".to_string()).message(), "Environment error: x");
    assert_eq!(StaccError::MongoDB("x".to_string()).message(), "MongoDB error: x");
    assert_eq!(StaccError::Reqwest("x".to_string()).message(), "Reqwest error: x");
    assert_eq!(StaccError::SerdeJSONError("x".to_string()).message(), "Serde JSON error: x");
}

#[test]
fn chicago_failure_wraps_the_message_of_its_cause() {
    match chicago_failure(&StaccError::Reqwest("refused".to_string())) {
        StaccResponseError::ChicagoAPIError { error } => assert_eq!(error, "Reqwest error: refused"),
        other => panic!("unexpected failure {other:?}"),
    }
    match count_failure("no count".to_string()) {
        StaccResponseError::MongoDBError { error } => assert_eq!(error, "no count"),
        other => panic!("unexpected failure {other:?}"),
    }
}

#[test]
fn json_is_read_or_refused() {
    assert!(parse_data_set("[{\"block\": \"100 N STATE ST,\"}]").is_ok());
    assert_eq!(parse_data_set("[1, 2, 3]").unwrap().as_array().map(Vec::len), Some(3));
    assert!(parse_data_set("{}").is_ok());
    match parse_data_set("[1, 2") {
        Err(StaccError::SerdeJSONError(why)) => assert!(!why.is_empty()),
        other => panic!("unexpected data {other:?}"),
    }
    assert!(matches!(parse_data_set(""), Err(StaccError::SerdeJSONError(_))));
}

#[test]
fn both_data_sets_must_be_json() {
    let data = get_vhnfs_shotspotter_data("[{\"age\": \"20-29\"}]", "[]").expect("both are JSON");
    assert_eq!(data.violence_data.as_array().map(Vec::len), Some(1));
    assert_eq!(data.shotspotter_data.as_array().map(Vec::len), Some(0));
    assert!(matches!(
        get_vhnfs_shotspotter_data("oops", "[]"),
        Err(StaccError::SerdeJSONError(_))
    ));
    assert!(matches!(
        get_vhnfs_shotspotter_data("[]", "oops"),
        Err(StaccError::SerdeJSONError(_))
    ));
}

#[test]
fn a_random_index_stays_below_the_count() {
    assert_eq!(random_index(0), None);
    assert_eq!(random_index(1), Some(0));
    for count in [2u64, 3, 10, 1000] {
        for _ in 0..200 {
            let index = random_index(count).expect("something to draw from");
            assert!(index < count);
        }
    }
}

#[test]
fn the_fallbacks_stand_in_for_what_is_not_found() {
    let found = background_or_fallback(Ok(Some(BackgroundGIF { link: "https://a.gif".to_string() })));
    assert_eq!(found.link, "https://a.gif");
    assert_eq!(background_or_fallback(Ok(None)).link, "https://imgur.com/FgJDNsx.gif");
    assert_eq!(background_or_fallback(Err("down".to_string())).link, FALLBACK_GIF);
    let told = story_or_fallback(Ok(Some(Story { story: "once".to_string() })));
    assert_eq!(told.story, "once");
    assert_eq!(story_or_fallback(Ok(None)).story, FALLBACK_STORY);
    assert_eq!(
        story_or_fallback(Err("down".to_string())).story,
        "If you don\u{2019}t like the road you\u{2019}re walking, pave another one. Except for this one."
    );
}

#[test]
fn documents_are_picked_by_index() {
    let mut mongo = Mongo::new();
    mongo.backgrounds_collection.push(BackgroundGIF { link: "zero".to_string() });
    mongo.backgrounds_collection.push(BackgroundGIF { link: "one".to_string() });
    mongo.stories_collection.push(Story { story: "tale".to_string() });
    assert_eq!(get_background_gif(&mongo, 0).link, "zero");
    assert_eq!(get_background_gif(&mongo, 1).link, "one");
    assert_eq!(get_background_gif(&mongo, 2).link, FALLBACK_GIF);
    assert_eq!(story(&mongo, 0).story, "tale");
    assert_eq!(story(&mongo, 1).story, FALLBACK_STORY);
    assert_eq!(story(&Mongo::new(), 0).story, FALLBACK_STORY);
}

#[test]
fn the_cookie_needs_a_domain() {
    let cookie = create_background_cookie("https://a.gif".to_string(), Some("example.org".to_string()))
        .expect("the domain is known");
    assert_eq!(cookie.name, "background");
    assert_eq!(cookie.value, "https://a.gif");
    assert_eq!(cookie.domain, "example.org");
    assert_eq!(cookie.path, "/");
    assert!(cookie.same_site_strict);
    assert!(cookie.session_only);
    assert!(create_background_cookie("https://a.gif".to_string(), None).is_none());
}

#[test]
fn variables_are_read_from_the_environment() {
    let environment = vec![
        ("HOME".to_string(), "/root".to_string()),
        ("MONGO_USER".to_string(), "admin".to_string()),
        ("MONGO_USER".to_string(), "shadowed".to_string()),
        ("STACC_DOMAIN".to_string(), "example.org".to_string()),
    ];
    assert_eq!(EnvironmentVariables::MongoDBUser.env_var(&environment).unwrap(), "admin");
    assert_eq!(EnvironmentVariables::StaccDomain.env_var(&environment).unwrap(), "example.org");
    match EnvironmentVariables::MongoDBPassword.env_var(&environment) {
        Err(error @ StaccError::Environment(_)) => {
            assert_eq!(error.message(), "Environment error: environment variable not found")
        }
        other => panic!("unexpected value {other:?}"),
    }
    assert!(EnvironmentVariables::StaccDatabase.env_var(&Vec::new()).is_err());
    assert_eq!(NOT_PRESENT, "environment variable not found");
}

#[test]
fn every_variable_has_its_name() {
    let names = [
        (EnvironmentVariables::MongoDBPassword, "MONGO_PASSWORD"),
        (EnvironmentVariables::MongoDBURI, "MONGO_URI"),
        (EnvironmentVariables::MongoDBUser, "MONGO_USER"),
        (EnvironmentVariables::SocrataAppToken, "SOCRATA_APP_TOKEN"),
        (EnvironmentVariables::StaccAPIPortNumber, "STACC_API_PORT_NUMBER"),
        (EnvironmentVariables::StaccBackgroundsCollectionName, "STACC_BACKGROUNDS_COLLECTION_NAME"),
        (EnvironmentVariables::StaccDatabase, "STACC_DATABASE"),
        (EnvironmentVariables::StaccDomain, "STACC_DOMAIN"),
        (EnvironmentVariables::StaccPostsCollectionName, "STACC_POSTS_COLLECTION_NAME"),
        (EnvironmentVariables::StaccStoriesCollectionName, "STACC_STORIES_COLLECTION_NAME"),
        (EnvironmentVariables::StaccVisitorsCollectionName, "STACC_VISITORS_COLLECTION_NAME"),
    ];
    for (variable, name) in names {
        assert_eq!(variable.key(), name);
    }
}

#[test]
fn the_check_passes_only_with_every_required_variable() {
    let all: Vec<String> = ENVIRONMENT_VARIABLES.iter().map(|name| name.to_string()).collect();
    assert!(run_environment_checks(&all).is_ok());
    assert!(missing_variables(&all).is_empty());
    let mut more = all.clone();
    more.push("PATH".to_string());
    assert!(run_environment_checks(&more).is_ok());

    let some: Vec<String> =
        all.iter().filter(|name| *name != "MONGO_URI" && *name != "STACC_DOMAIN").cloned().collect();
    assert_eq!(missing_variables(&some), vec!["MONGO_URI".to_string(), "STACC_DOMAIN".to_string()]);
    match run_environment_checks(&some) {
        Err(StaccError::Environment(why)) => assert_eq!(why, "environment variable not found"),
        other => panic!("unexpected outcome {other:?}"),
    }
    assert_eq!(missing_variables(&Vec::new()), all);
    assert!(run_environment_checks(&Vec::new()).is_err());
    assert!(contains_name(&all, "MONGO_USER"));
    assert!(!contains_name(&all, "mongo_user"));
}
