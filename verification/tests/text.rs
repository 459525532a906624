use stacc::text::{followed_by, same_text, sorts_before, take_before, trim_trailing};

#[test]
fn take_before_cuts_at_the_first_colon() {
    assert_eq!(take_before("1.2.3.4:5000", ':'), "1.2.3.4");
    assert_eq!(take_before("1.2.3.4", ':'), "1.2.3.4");
    assert_eq!(take_before(":8080", ':'), "");
    assert_eq!(take_before("", ':'), "");
    assert_eq!(take_before("2001:db8::1", ':'), "2001");
    assert_eq!(take_before("h\u{f6}st:1", ':'), "h\u{f6}st");
}

#[test]
fn trim_trailing_drops_every_comma_at_the_end() {
    assert_eq!(trim_trailing("100 N STATE ST,", ','), "100 N STATE ST");
    assert_eq!(trim_trailing("100 N STATE ST,,,", ','), "100 N STATE ST");
    assert_eq!(trim_trailing("100 N STATE ST", ','), "100 N STATE ST");
    assert_eq!(trim_trailing("a,b,", ','), "a,b");
    assert_eq!(trim_trailing(",,", ','), "");
    assert_eq!(trim_trailing("", ','), "");
}

#[test]
fn sorts_before_agrees_with_the_order_of_str() {
    let words = [
        "",
        "2023/01/15 06:00:00 CST",
        "2023/05/01 08:45:00 CDT",
        "2023/05/01 08:45:01 CDT",
        "2023/05/01 08:45",
        "a",
        "ab",
        "b",
        "B",
        "\u{e9}t\u{e9}",
        "z",
        "\u{1f9e8}",
    ];
    for a in words {
        for b in words {
            assert_eq!(sorts_before(a, b), a < b, "{a:?} against {b:?}");
        }
    }
}

#[test]
fn same_text_tells_equal_from_different() {
    assert!(same_text("0110", "0110"));
    assert!(!same_text("0110", "0130"));
    assert!(!same_text("0110", "011"));
    assert!(!same_text("", "0"));
    assert!(same_text("", ""));
    assert!(same_text("\u{e9}", "\u{e9}"));
}

#[test]
fn concat_joins_two_texts() {
    assert_eq!(followed_by("MongoDB error: ", "timeout"), "MongoDB error: timeout");
    assert_eq!(followed_by("", ""), "");
}
