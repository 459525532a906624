use stacc::frontend::date::{format_date, shown_or_raw, widen_range};

#[test]
fn format_date_shows_chicago_summer_time() {
    assert_eq!(format_date("2023-05-01T13:45:00.000"), "2023/05/01 08:45:00 CDT");
}

#[test]
fn format_date_shows_chicago_winter_time() {
    assert_eq!(format_date("2023-01-15T12:00:00.000"), "2023/01/15 06:00:00 CST");
}

#[test]
fn format_date_crosses_midnight_into_the_day_before() {
    assert_eq!(format_date("2024-03-01T02:30:15.250"), "2024/02/29 20:30:15 CST");
}

#[test]
fn format_date_passes_on_what_it_cannot_read() {
    assert_eq!(format_date("yesterday"), "yesterday");
    assert_eq!(format_date(""), "");
    assert_eq!(format_date("2023-05-01"), "2023-05-01");
    assert_eq!(format_date("2023-13-01T00:00:00.000"), "2023-13-01T00:00:00.000");
}

#[test]
fn shown_or_raw_prefers_the_rendering() {
    assert_eq!(shown_or_raw(Some("2023/05/01 08:45:00 CDT".to_string()), "raw"), "2023/05/01 08:45:00 CDT");
    assert_eq!(shown_or_raw(None, "raw"), "raw");
}

#[test]
fn widen_range_starts_with_the_first_date() {
    let range = widen_range(None, "2023/05/01 08:45:00 CDT");
    assert_eq!(range.0, "2023/05/01 08:45:00 CDT");
    assert_eq!(range.1, "2023/05/01 08:45:00 CDT");
}

#[test]
fn widen_range_moves_only_the_end_that_is_passed() {
    let start = ("2023/05/01 08:45:00 CDT".to_string(), "2023/06/01 08:45:00 CDT".to_string());
    let earlier = widen_range(Some(start.clone()), "2023/04/01 00:00:00 CDT");
    assert_eq!(earlier, ("2023/04/01 00:00:00 CDT".to_string(), start.1.clone()));
    let later = widen_range(Some(start.clone()), "2023/07/01 00:00:00 CDT");
    assert_eq!(later, (start.0.clone(), "2023/07/01 00:00:00 CDT".to_string()));
    let inside = widen_range(Some(start.clone()), "2023/05/15 00:00:00 CDT");
    assert_eq!(inside, start);
    let same = widen_range(Some(start.clone()), "2023/05/01 08:45:00 CDT");
    assert_eq!(same, start);
}

#[test]
fn an_empty_date_is_a_date_and_sorts_first() {
    let range = widen_range(Some(("b".to_string(), "b".to_string())), "");
    assert_eq!(range, (String::new(), "b".to_string()));
    let range = widen_range(Some(range), "c");
    assert_eq!(range, (String::new(), "c".to_string()));
    let range = widen_range(None, "");
    assert_eq!(range, (String::new(), String::new()));
    let range = widen_range(Some(range), "a");
    assert_eq!(range, (String::new(), "a".to_string()));
}
