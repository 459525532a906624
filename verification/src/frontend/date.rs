//! Dates as the pages show them: Chicago time in a fixed, zero-padded layout, and the
//! range that a run of such dates spans.

use crate::text::{
    lemma_text_less_irreflexive, lemma_text_less_transitive, sorts_before, text_at_most,
    text_less,
};
use chrono::NaiveDateTime;
use chrono_tz::America::Chicago;
use vstd::prelude::*;
use vstd::string::*;

verus! {

/// What chrono and chrono-tz make of `raw`: read as `%Y-%m-%dT%H:%M:%S%.3f`, taken as UTC,
/// moved to the zone America/Chicago and written as `%Y/%m/%d %H:%M:%S %Z`; `None` where
/// chrono does not read `raw` in that layout.
pub uninterp spec fn chicago_time(raw: Seq<char>) -> Option<Seq<char>>;

/// The date as it is shown: the Chicago rendering where there is one, else `raw` unchanged.
pub open spec fn normalized_date(raw: Seq<char>) -> Seq<char> {
    match chicago_time(raw) {
        Some(shown) => shown,
        None => raw,
    }
}

/// The one of two dates that sorts first.
pub open spec fn earlier(a: Seq<char>, b: Seq<char>) -> Seq<char> {
    if text_less(b, a) {
        b
    } else {
        a
    }
}

/// The one of two dates that sorts last.
pub open spec fn later(a: Seq<char>, b: Seq<char>) -> Seq<char> {
    if text_less(a, b) {
        b
    } else {
        a
    }
}

/// The one of `dates` that sorts first, an empty date among them too; the empty text
/// where there are no dates.
pub open spec fn earliest_of(dates: Seq<Seq<char>>) -> Seq<char>
    decreases dates.len(),
{
    if dates.len() == 0 {
        Seq::empty()
    } else if dates.len() == 1 {
        dates[0]
    } else {
        earlier(earliest_of(dates.drop_last()), dates.last())
    }
}

/// The one of `dates` that sorts last; the empty text where there are no dates.
pub open spec fn latest_of(dates: Seq<Seq<char>>) -> Seq<char>
    decreases dates.len(),
{
    if dates.len() == 0 {
        Seq::empty()
    } else if dates.len() == 1 {
        dates[0]
    } else {
        later(latest_of(dates.drop_last()), dates.last())
    }
}

/// Every one of `dates` sorts at or after the first end of `range` and at or before the
/// second.
pub open spec fn range_holds(range: (Seq<char>, Seq<char>), dates: Seq<Seq<char>>) -> bool {
    forall|k: int|
        0 <= k < dates.len() ==> text_at_most(range.0, #[trigger] dates[k]) && text_at_most(
            dates[k],
            range.1,
        )
}

/// Calls chrono's `NaiveDateTime::parse_from_str`, `NaiveDateTime::and_utc`,
/// `DateTime::with_timezone` with chrono-tz's `Chicago`, and `DateTime::format`.
///
/// Trusted: the result is `chicago_time` of the input, that is, it depends on the input
/// text alone.
#[verifier::external_body]
fn render_chicago_time(raw: &str) -> (shown: Option<String>)
    ensures
        shown matches Some(s) ==> chicago_time(raw@) == Some(s@),
        shown is None ==> chicago_time(raw@) is None,
{
    match NaiveDateTime::parse_from_str(raw, "%Y-%m-%dT%H:%M:%S%.3f") {
        Ok(parsed) => Some(
            parsed.and_utc().with_timezone(&Chicago).format("%Y/%m/%d %H:%M:%S %Z").to_string(),
        ),
        Err(_) => None,
    }
}

/// The date to show, given what the rendering of `raw` came to.
pub fn shown_or_raw(rendered: Option<String>, raw: &str) -> (shown: String)
    ensures
        shown@ == match rendered {
            Some(s) => s@,
            None => raw@,
        },
{
    match rendered {
        Some(s) => s,
        None => raw.to_owned(),
    }
}

/// Turns a raw UTC timestamp into the date shown on the page; a timestamp that cannot be
/// read is shown as it came.
pub fn format_date(raw_date: &str) -> (shown: String)
    ensures
        shown@ == normalized_date(raw_date@),
{
    shown_or_raw(render_chicago_time(raw_date), raw_date)
}

/// Widens a range of dates by one more date. `None` is the range of no dates yet: the
/// first date is then both ends. An empty date is a date like any other, and sorts first.
pub fn widen_range(range: Option<(String, String)>, date: &str) -> (widened: (String, String))
    ensures
        match range {
            Some(ends) => widened.0@ == earlier(ends.0@, date@) && widened.1@ == later(
                ends.1@,
                date@,
            ),
            None => widened.0@ == date@ && widened.1@ == date@,
        },
{
    match range {
        Some(ends) => {
            let (earliest, latest) = ends;
            let first = if sorts_before(date, earliest.as_str()) {
                date.to_owned()
            } else {
                earliest
            };
            let last = if sorts_before(latest.as_str(), date) {
                date.to_owned()
            } else {
                latest
            };
            (first, last)
        },
        None => (date.to_owned(), date.to_owned()),
    }
}

/// One more date widens the range of the dates before it: it is both ends where there
/// were none, and else the earlier of it and the earliest, and the later of it and the
/// latest.
pub proof fn lemma_range_push(dates: Seq<Seq<char>>, date: Seq<char>)
    ensures
        earliest_of(dates.push(date)) == if dates.len() == 0 {
            date
        } else {
            earlier(earliest_of(dates), date)
        },
        latest_of(dates.push(date)) == if dates.len() == 0 {
            date
        } else {
            later(latest_of(dates), date)
        },
{
    assert(dates.push(date).drop_last() == dates);
}

/// The earliest date sorts at or before every date.
pub proof fn lemma_earliest_bounds(dates: Seq<Seq<char>>, i: int)
    requires
        0 <= i < dates.len(),
    ensures
        text_at_most(earliest_of(dates), dates[i]),
    decreases dates.len(),
{
    let rest = dates.drop_last();
    let date = dates.last();
    lemma_text_less_irreflexive(date);
    if dates.len() > 1 && i < dates.len() - 1 {
        lemma_earliest_bounds(rest, i);
        assert(rest[i] == dates[i]);
        if text_less(date, earliest_of(rest)) && text_less(dates[i], date) {
            lemma_text_less_transitive(dates[i], date, earliest_of(rest));
        }
    }
}

/// Every date sorts at or before the latest.
pub proof fn lemma_latest_bounds(dates: Seq<Seq<char>>, i: int)
    requires
        0 <= i < dates.len(),
    ensures
        text_at_most(dates[i], latest_of(dates)),
    decreases dates.len(),
{
    let rest = dates.drop_last();
    let date = dates.last();
    lemma_text_less_irreflexive(date);
    if dates.len() > 1 && i < dates.len() - 1 {
        lemma_latest_bounds(rest, i);
        assert(rest[i] == dates[i]);
        if text_less(latest_of(rest), date) && text_less(date, dates[i]) {
            lemma_text_less_transitive(latest_of(rest), date, dates[i]);
        }
    }
}

/// Both ends of the range of some dates are dates among them.
pub proof fn lemma_range_ends_are_dates(dates: Seq<Seq<char>>)
    requires
        dates.len() > 0,
    ensures
        dates.contains(earliest_of(dates)),
        dates.contains(latest_of(dates)),
    decreases dates.len(),
{
    if dates.len() == 1 {
        assert(dates[0] == earliest_of(dates));
    } else {
        let rest = dates.drop_last();
        lemma_range_ends_are_dates(rest);
        let e = choose|k: int| 0 <= k < rest.len() && rest[k] == earliest_of(rest);
        let l = choose|k: int| 0 <= k < rest.len() && rest[k] == latest_of(rest);
        assert(dates[e] == rest[e]);
        assert(dates[l] == rest[l]);
        assert(dates[dates.len() - 1] == dates.last());
    }
}

/// The range that a run of dates spans holds every one of them.
pub proof fn lemma_range_holds_dates(dates: Seq<Seq<char>>)
    ensures
        range_holds((earliest_of(dates), latest_of(dates)), dates),
{
    assert forall|k: int| 0 <= k < dates.len() implies text_at_most(
        earliest_of(dates),
        #[trigger] dates[k],
    ) && text_at_most(dates[k], latest_of(dates)) by {
        lemma_earliest_bounds(dates, k);
        lemma_latest_bounds(dates, k);
    }
}

} // verus!
