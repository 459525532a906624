use stacc::digest::{digest_text, sha256_hex};
use stacc::frontend::background::{
    get_new_background, set_background, set_background_gif, BackgroundSource, STATIC_GIF,
};
use stacc::frontend::blog::{AllPosts, PostData};
use stacc::frontend::chicago::{Location, ShotData, ViolenceData};
use stacc::frontend::markers::{shot_marker, shot_marker_at, violence_marker};
use stacc::frontend::open_graph::{OpenGraphTag, PageType};
use stacc::frontend::pages::{
    chiraq_reply, create_date_range_labels, create_post_body, inject_post_body, map_is_ready,
    post_api_path, post_found, post_link, post_refused, post_title, post_unreachable, posts_reply,
    script_for, story_reply, Fetched,
};
use stacc::frontend::popup::{field_text, popup_element_id, shows_rounds, subtitle, Popup};
use stacc::frontend::response::Response;
use stacc::frontend::story::Story;

fn text(value: &str) -> Option<String> {
    Some(value.to_string())
}

fn shot(kind: Option<&str>, coordinates: Vec<u64>) -> ShotData {
    ShotData {
        block: text("100 N STATE ST,"),
        community_area: text("LOOP"),
        date: "2023-05-01T13:45:00.000".to_string(),
        incident_type_description: kind.map(str::to_string),
        location: Location { coordinates },
        rounds: text("4"),
        zip_code: text("60602"),
    }
}

fn victim(coordinates: Vec<u64>) -> ViolenceData {
    ViolenceData {
        age: text("20-29"),
        community_area: text("AUSTIN"),
        date: "2023-01-15T12:00:00.000".to_string(),
        gunshot_injury_i: text("YES"),
        incident_iucr_cd: text("041A"),
        incident_primary: "BATTERY".to_string(),
        location: Location { coordinates },
        location_description: text("STREET"),
        race: text("BLK"),
        sex: text("M"),
        victimization_fbi_cd: "04B".to_string(),
        victimization_fbi_descr: "AGGRAVATED BATTERY".to_string(),
        zip_code: text("60644"),
    }
}

fn blank_shot(block: Option<&str>, area: Option<&str>, date: &str) -> ShotData {
    ShotData {
        block: block.map(str::to_string),
        community_area: area.map(str::to_string),
        date: date.to_string(),
        incident_type_description: None,
        location: Location { coordinates: vec![] },
        rounds: None,
        zip_code: None,
    }
}

fn entry(post_id: &str) -> PostData {
    let mut post = PostData::from_post_id(post_id.to_string());
    post.title = format!("title of {post_id}");
    post
}

#[test]
fn digests_are_written_in_lower_case_hexadecimal() {
    assert_eq!(digest_text(&vec![1, 2, 3, 15, 16]), "0102030f10");
    assert_eq!(digest_text(&vec![0, 255, 171]), "00ffab");
    assert_eq!(digest_text(&Vec::new()), "");
    assert_eq!(
        sha256_hex(""),
        "e3b0c44298fc1c149afbf4c8996fb92427ae41e4649b934ca495991b7852b855"
    );
    assert_eq!(
        sha256_hex("abc"),
        "ba7816bf8f01cfea414140de5dae2223b00361a396177a9cb410ff61f20015ad"
    );
}

#[test]
fn the_id_of_an_incident_is_the_digest_of_its_fields() {
    assert_eq!(
        blank_shot(None, None, "").generate_id(""),
        "e3b0c44298fc1c149afbf4c8996fb92427ae41e4649b934ca495991b7852b855"
    );
    assert_eq!(
        blank_shot(Some("a"), Some("b"), "c").generate_id(""),
        "ba7816bf8f01cfea414140de5dae2223b00361a396177a9cb410ff61f20015ad"
    );
    assert_eq!(
        blank_shot(Some("a"), None, "b").generate_id("c"),
        "ba7816bf8f01cfea414140de5dae2223b00361a396177a9cb410ff61f20015ad"
    );
    let record = shot(Some("Multiple Gunshots"), vec![]);
    let id = record.generate_id("Location { coordinates: [] }");
    assert_eq!(
        id,
        sha256_hex("100 N STATE ST,LOOP2023-05-01T13:45:00.000Multiple GunshotsLocation { coordinates: [] }460602")
    );
    assert_eq!(id.len(), 64);
    assert_ne!(id, record.generate_id("Location { coordinates: [1.0] }"));
    let person = victim(vec![]);
    assert_eq!(
        person.generate_id("L"),
        sha256_hex("20-29AUSTIN2023-01-15T12:00:00.000YES041ABATTERYLSTREETBLKM04BAGGRAVATED BATTERY60644")
    );
}

#[test]
fn the_popup_of_a_shot_shows_rounds_for_multiple_gunshots_only() {
    let many = shot(Some("Multiple Gunshots"), vec![]);
    let content = many.into_popup("point");
    assert_eq!(content.id, format!("shot-data-{}-popup", many.generate_id("point")));
    assert_eq!(content.header, "Multiple Gunshots");
    assert_eq!(content.subtitle, "2023/05/01 08:45:00 CDT | LOOP 60602");
    assert_eq!(
        content.rows,
        vec![
            ("<b>Block</b>".to_string(), "100 N STATE ST".to_string()),
            ("<b>Rounds</b>".to_string(), "4".to_string()),
        ]
    );
    let single = shot(Some("Single Gunshot"), vec![]);
    assert_eq!(
        single.create_info_table(),
        vec![("<b>Block</b>".to_string(), "100 N STATE ST".to_string())]
    );
    assert_eq!(shot(None, vec![]).create_popup_header(), "");
    assert_eq!(single.format_date(), "2023/05/01 08:45:00 CDT");
}

#[test]
fn the_popup_of_a_victim_shows_five_rows() {
    let person = victim(vec![]);
    let content = person.into_popup("point");
    assert_eq!(content.header, "BATTERY AGGRAVATED: HANDGUN");
    assert_eq!(content.subtitle, "2023/01/15 06:00:00 CST | AUSTIN 60644");
    assert_eq!(content.id, popup_element_id(&person.generate_id("point")));
    let rows: Vec<(&str, &str)> =
        content.rows.iter().map(|row| (row.0.as_str(), row.1.as_str())).collect();
    assert_eq!(
        rows,
        vec![
            ("<b>Gunshot injury?</b>", "YES"),
            ("<b>Location</b>", "STREET"),
            ("<b>Victim race</b>", "BLK"),
            ("<b>Victim age</b>", "20-29"),
            ("<b>Victim sex</b>", "M"),
        ]
    );
    assert_eq!(
        person.build_table_row("Victim age", "20-29"),
        ("<b>Victim age</b>".to_string(), "20-29".to_string())
    );
    assert_eq!(person.create_metadata_subtitle("now"), "now | AUSTIN 60644");
}

#[test]
fn popup_texts_are_put_together_from_their_parts() {
    assert_eq!(popup_element_id("abc"), "shot-data-abc-popup");
    assert_eq!(subtitle("t", "a", "z"), "t | a z");
    assert_eq!(field_text(&text("x")), "x");
    assert_eq!(field_text(&None), "");
    assert!(shows_rounds("multiple gunshots"));
    assert!(!shows_rounds("Multiple Gunshots"));
    assert!(!shows_rounds("single gunshot"));
}

#[test]
fn the_marker_of_a_shot_goes_by_its_kind() {
    let lon = (-87.62f64).to_bits();
    let lat = 41.87f64.to_bits();
    let many = shot_marker(&shot(Some("MULTIPLE GUNSHOTS"), vec![lon, lat])).expect("a point");
    assert_eq!(many.icon_url, "https://i.imgur.com/3auFaRW.png");
    assert_eq!(many.alt, "\u{1f52b}");
    assert_eq!(many.title, "multiple gunshots");
    assert_eq!(many.longitude, lon);
    assert_eq!(many.latitude, lat);
    let cracker = shot_marker(&shot(Some("Gunshot or Firecracker"), vec![lon, lat])).expect("a point");
    assert_eq!(cracker.icon_url, "https://i.imgur.com/UalxwUV.png");
    assert_eq!(cracker.alt, "\u{1f9e8}");
    assert_eq!(cracker.title, "gunshot or firecracker");
    let single = shot_marker(&shot(Some("SINGLE GUNSHOT"), vec![lon, lat])).expect("a point");
    assert_eq!(single.icon_url, "https://i.imgur.com/muz4yax.png");
    assert_eq!(single.alt, "\u{1f52b}");
    let unnamed = shot_marker(&shot(None, vec![lon])).expect("a point");
    assert_eq!(unnamed.icon_url, "https://i.imgur.com/muz4yax.png");
    assert_eq!(unnamed.title, "");
    assert_eq!(unnamed.latitude, lon);
    assert!(shot_marker(&shot(Some("SINGLE GUNSHOT"), vec![])).is_none());
    let exact = shot_marker_at("multiple gunshots".to_string(), (1, 2));
    assert_eq!(exact.icon_url, "https://i.imgur.com/3auFaRW.png");
    assert_eq!((exact.longitude, exact.latitude), (1, 2));
}

#[test]
fn the_marker_of_a_victim_is_always_the_same() {
    let marker = violence_marker(&victim(vec![5, 6, 7])).expect("a point");
    assert_eq!(marker.icon_url, "https://i.imgur.com/5TV33u5.png");
    assert_eq!(marker.alt, "\u{1f92c}");
    assert_eq!(marker.title, "violence");
    assert_eq!((marker.longitude, marker.latitude), (5, 7));
    assert!(violence_marker(&victim(vec![])).is_none());
}

#[test]
fn markdown_becomes_html() {
    assert_eq!(create_post_body("# Title"), "<h1>Title</h1>\n");
    assert_eq!(create_post_body("~~gone~~"), "<p><del>gone</del></p>\n");
    assert_eq!(create_post_body("it's"), "<p>it\u{2019}s</p>\n");
    assert_eq!(create_post_body(""), "");
}

#[test]
fn the_script_names_the_element_and_holds_the_html() {
    let script = script_for("post-content", "<p>hi</p>");
    assert_eq!(
        script,
        "\n            const contentDiv = document.getElementById('post-content');\n            if (contentDiv) {\n              contentDiv.innerHTML = `<p>hi</p>`;\n              hljs.highlightAll();\n\n              observer.disconnect();\n\n              return;\n            }\n        "
    );
    assert_eq!(inject_post_body("404-story", "*hi*"), script_for("404-story", "<p><em>hi</em></p>\n"));
}

#[test]
fn the_map_page_reads_its_answer() {
    assert_eq!(chiraq_reply(Fetched::Answered { status: 200, body: Ok(7) }), Ok(7));
    let unread = chiraq_reply::<i32>(Fetched::Answered { status: 200, body: Err("eof".to_string()) })
        .expect_err("the body could not be read");
    assert_eq!(unread.status_code, 500);
    assert_eq!(unread.message, "UNABLE TO PARSE CHIRAQ DATA TO JSON: eof");
    let refused = chiraq_reply(Fetched::Answered { status: 502, body: Ok(7) })
        .expect_err("the status is not 200");
    assert_eq!(refused, Response { message: "No API response".to_string(), status_code: 500 });
    let lost = chiraq_reply::<i32>(Fetched::Failed { error: "offline".to_string() })
        .expect_err("the request did not get through");
    assert_eq!(lost.message, "UNABLE TO GET CHIRAQ DATA FROM THE API: offline");
    assert_eq!(lost.status_code, 500);
}

#[test]
fn the_blog_page_shows_the_newest_post_first() {
    let all = AllPosts { posts: vec![entry("old"), entry("newer"), entry("newest")] };
    let shown = posts_reply(Fetched::Answered { status: 200, body: Ok(all) }).expect("posts");
    let ids: Vec<&str> = shown.posts.iter().map(|post| post.post_id.as_str()).collect();
    assert_eq!(ids, vec!["newest", "newer", "old"]);
    let unread = posts_reply(Fetched::Answered { status: 200, body: Err("eof".to_string()) })
        .expect_err("the body could not be read");
    assert_eq!(unread.message, "UNABLE TO PARSE THE POSTS TO JSON: eof");
    let lost = posts_reply(Fetched::Failed { error: "offline".to_string() })
        .expect_err("the request did not get through");
    assert_eq!(lost.message, "UNABLE TO GET POSTS FROM THE API: offline");
    assert!(AllPosts { posts: vec![] }.newest_first().posts.is_empty());
}

#[test]
fn the_post_page_reads_its_answer() {
    assert_eq!(post_found(Ok(entry("a"))).expect("the post").post_id, "a");
    let unread = post_found(Err("eof".to_string())).expect_err("the body could not be read");
    assert_eq!(unread.message, "UNABLE TO PARSE THE POST DATA TO JSON: eof");
    assert_eq!(unread.status_code, 500);
    let sent = Response { message: "MongoDB search error: Post not found!".to_string(), status_code: 404 };
    assert_eq!(post_refused(Ok(sent.clone())), sent);
    assert_eq!(
        post_refused(Err("eof".to_string())),
        Response { message: "No API response.".to_string(), status_code: 500 }
    );
    assert_eq!(post_unreachable("offline").message, "UNABLE TO GET THE POST FROM THE API: offline");
}

#[test]
fn the_story_page_takes_a_story_from_a_good_answer_only() {
    let told = Story { story: "once".to_string() };
    assert_eq!(
        story_reply(Fetched::Answered { status: 200, body: Ok(told.clone()) }).map(|story| story.story),
        Some("once".to_string())
    );
    assert!(story_reply(Fetched::Answered { status: 404, body: Ok(told) }).is_none());
    assert!(story_reply(Fetched::Answered { status: 200, body: Err("eof".to_string()) }).is_none());
    assert!(story_reply(Fetched::Failed { error: "offline".to_string() }).is_none());
    assert_eq!(
        Story::default().story,
        "If you don\u{2019}t like the road you\u{2019}re walking, pave another one. Except for this one."
    );
}

#[test]
fn the_map_is_ready_with_two_lists_that_hold_something() {
    assert!(map_is_ready(Some(1), Some(3)));
    assert!(!map_is_ready(Some(0), Some(3)));
    assert!(!map_is_ready(Some(1), Some(0)));
    assert!(!map_is_ready(None, Some(3)));
    assert!(!map_is_ready(Some(1), None));
    assert!(!map_is_ready(None, None));
}

#[test]
fn page_texts_are_put_together_from_their_parts() {
    let range = ("2023/04/28 18:10:05 CDT".to_string(), "2023/05/02 20:00:00 CDT".to_string());
    assert_eq!(
        create_date_range_labels(&range),
        "2023/04/28 18:10:05 CDT \u{2212} 2023/05/02 20:00:00 CDT"
    );
    assert_eq!(post_api_path("abc"), "/api/blog/post/abc");
    assert_eq!(post_link("abc"), "/blog/post/abc");
    assert_eq!(post_title("Hello"), "jl | blog | Hello");
}

#[test]
fn the_background_comes_from_the_cookie_unless_a_new_one_is_asked_for() {
    match set_background(false, Some("https://a.gif".to_string())) {
        BackgroundSource::Cookie(link) => assert_eq!(link, "https://a.gif"),
        other => panic!("unexpected source {other:?}"),
    }
    assert!(matches!(set_background(true, Some("https://a.gif".to_string())), BackgroundSource::Server));
    assert!(matches!(set_background(false, None), BackgroundSource::Server));
    assert!(matches!(set_background(true, None), BackgroundSource::Server));
    assert_eq!(get_new_background(Some("https://a.gif".to_string())), "https://a.gif");
    assert_eq!(get_new_background(None), STATIC_GIF);
    assert_eq!(STATIC_GIF, "../../STATIC.gif");
}

#[test]
fn the_background_style_veils_the_image() {
    let style: Vec<(String, String)> = set_background_gif("https://a.gif");
    let pairs: Vec<(&str, &str)> = style.iter().map(|pair| (pair.0.as_str(), pair.1.as_str())).collect();
    assert_eq!(
        pairs,
        vec![
            ("background-attachment", "fixed"),
            (
                "background-image",
                "linear-gradient(rgba(0, 0, 0, 0.7), rgba(0, 0, 0, 0.7)), url(https://a.gif)"
            ),
            ("background-position", "center center"),
            ("background-repeat", "no-repeat"),
            ("background-size", "cover"),
            ("height", "100vh"),
            ("width", "100vw"),
            ("overflow-x", "hidden"),
        ]
    );
}

#[test]
fn open_graph_tags_have_their_property_and_content() {
    let tags = [
        (OpenGraphTag::Description("about me".to_string()), "og:description", "about me"),
        (OpenGraphTag::ImageLink("../../nonsense.gif".to_string()), "og:image", "../../nonsense.gif"),
        (OpenGraphTag::PageType(PageType::Article), "og:type", "article"),
        (OpenGraphTag::PageType(PageType::Website), "og:type", "website"),
        (OpenGraphTag::Title("jl | blog".to_string()), "og:title", "jl | blog"),
        (OpenGraphTag::Url("https://josephlai.dev".to_string()), "og:url", "https://josephlai.dev"),
    ];
    for (tag, property, content) in tags {
        assert_eq!(tag.to_tuple(), (property.to_string(), content.to_string()));
    }
    assert_eq!(PageType::Article.to_string(), "article");
    assert_eq!(PageType::Website.to_string(), "website");
}

#[test]
fn a_post_known_by_its_id_only_is_blank() {
    let post = PostData::from_post_id("abc".to_string());
    assert_eq!(post.post_id, "abc");
    assert_eq!(post.body, "");
    assert_eq!(post.created, "");
    assert_eq!(post.edited, None);
    assert_eq!(post.preview_image_link, "");
    assert_eq!(post.preview_summary, "");
    assert_eq!(post.title, "");
    assert_eq!(post.topic, "");
    assert_eq!(post.view_count, 0);
    let copy = post.clone();
    assert_eq!(copy.post_id, "abc");
    assert_eq!(copy.view_count, 0);
}

#[test]
fn responses_default_to_an_unknown_failure() {
    let response = Response::default();
    assert_eq!(response.message, "UNKNOWN");
    assert_eq!(response.status_code, 500);
    let failed = Response::status_500_with_message("No API response".to_string());
    assert_eq!(failed.message, "No API response");
    assert_eq!(failed.status_code, 500);
    assert_eq!(failed.clone(), failed);
}
