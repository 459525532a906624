//! How a visit and a fetch of a post are recorded.
//!
//! Recording is a short exchange with the document store and the lookup service. Each step
//! names what is to be done next; the caller does it and reports how it went. The same
//! steps, run against the collections of [`Mongo`], give [`log_visitor_data`] and
//! [`log_post_view`].

use crate::api::errors::StaccError;
use crate::api::mongo::{
    addresses, is_return_visit, post_visit_recorded, same_but_at, visitor_settled, Mongo,
};
use crate::api::visitor::{all_valid, timestamp_now, IPData, Visitor};
use crate::search::{
    first_index_of, lemma_first_index_of, lemma_first_index_unique, lemma_occurrences_push,
    lemma_occurs_iff_found, occurrences,
};
use crate::tally::count_of;
use crate::text::{followed_by, prefix_before, take_before};
use vstd::prelude::*;
use vstd::string::*;

verus! {

/// The number of fields asked of the lookup service.
pub const IP_API_FIELD_COUNT: usize = 21;

/// The fields asked of the lookup service.
pub const IP_API_FIELDS: [&'static str; 21] = [
    "as",
    "city",
    "continent",
    "country",
    "countryCode",
    "currency",
    "hosting",
    "isp",
    "lat",
    "lon",
    "message",
    "mobile",
    "org",
    "proxy",
    "query",
    "region",
    "regionName",
    "reverse",
    "status",
    "timezone",
    "zip",
];

/// The first `upto` fields, with a comma between each two.
pub open spec fn fields_joined(upto: int) -> Seq<char>
    decreases upto,
{
    if upto <= 0 {
        Seq::empty()
    } else if upto == 1 {
        IP_API_FIELDS@[0]@
    } else {
        fields_joined(upto - 1) + ","@ + IP_API_FIELDS@[upto - 1]@
    }
}

/// The address at which the lookup service is asked about `ip`.
pub open spec fn lookup_url(ip: Seq<char>) -> Seq<char> {
    "http://ip-api.com/json/"@ + ip + "?fields="@ + fields_joined(
        IP_API_FIELDS@.len() as int,
    )
}

/// The address of a client without its port: what stands before the first colon.
pub open spec fn real_ip(remote_address: Seq<char>) -> Seq<char> {
    prefix_before(remote_address, ':')
}

/// The address at which the lookup service is asked about `ip`.
pub fn ip_lookup_url(ip: &str) -> (url: String)
    ensures
        url@ == lookup_url(ip@),
{
    let mut url = followed_by("http://ip-api.com/json/", ip);
    url.append("?fields=");
    let ghost head = url@;
    let mut i: usize = 0;
    assert(url@ =~= head + fields_joined(0));
    while i < IP_API_FIELD_COUNT
        invariant
            i <= IP_API_FIELD_COUNT,
            IP_API_FIELDS@.len() == IP_API_FIELD_COUNT,
            url@ == head + fields_joined(i as int),
        decreases IP_API_FIELD_COUNT - i,
    {
        if i > 0 {
            url.append(",");
        }
        url.append(IP_API_FIELDS[i]);
        assert(url@ =~= head + fields_joined(i as int + 1));
        i += 1;
    }
    url
}

/// The address of the client of a request, without its port, given the remote address
/// that the request tells, if it tells one.
pub fn get_real_ip(remote_address: Option<&str>) -> (ip: Option<String>)
    ensures
        match remote_address {
            Some(raw) => ip matches Some(text) && text@ == real_ip(raw@),
            None => ip is None,
        },
{
    match remote_address {
        Some(raw) => Some(take_before(raw, ':')),
        None => None,
    }
}

/// What is to be done next to record a visit.
#[derive(Debug)]
pub enum VisitStep {
    /// The request tells no address: warn, and record nothing.
    NoAddress,
    /// Count one more visit on the record of `ip_address`, with `last_visit_date` as the
    /// date of the last one, in one update; report whether there was such a record.
    Touch { ip_address: String, last_visit_date: String },
    /// Ask the lookup service at `url` about `ip_address`; report what it told.
    LookUp { ip_address: String, url: String },
    /// Insert `visitor`, in one update that adds it only where no record of its address
    /// is there by now, and else counts one more visit on that record; report whether
    /// that went well.
    Insert { visitor: Visitor },
    /// Nothing is left to do.
    Done { outcome: Result<(), StaccError> },
}

/// What is to be done next to record a fetch of a post.
#[derive(Debug)]
pub enum PostViewStep {
    /// The request tells no address: warn that the fetch of `post_id` is counted for no
    /// visitor.
    NoAddress { post_id: String },
    /// Add one to `field` on the record of `ip_address`, in one update.
    CountVisit { ip_address: String, post_id: String, field: String },
    /// Nothing is left to do.
    Done { outcome: Result<(), StaccError> },
}

/// The record of a visitor first seen at `now` from `ip_address`, of whom the lookup
/// service told `ip_data`.
pub open spec fn is_new_visitor(
    visitor: Visitor,
    ip_address: Seq<char>,
    now: Seq<char>,
    ip_data: Option<IPData>,
) -> bool {
    &&& visitor.first_visit_date@ == now
    &&& visitor.ip_address@ == ip_address
    &&& visitor.ip_data == ip_data
    &&& visitor.last_visit_date is None
    &&& visitor.refresh_count == 1
    &&& visitor.visited_posts@ == Seq::<(Seq<char>, int)>::empty()
}

/// The first step of recording a visit at `now`: where the request tells an address, one
/// more visit is counted for it, the port left out.
pub fn begin_visit_at(remote_address: Option<&str>, now: String) -> (step: VisitStep)
    ensures
        match remote_address {
            Some(raw) => step matches VisitStep::Touch { ip_address, last_visit_date }
                && ip_address@ == real_ip(raw@) && last_visit_date == now,
            None => step is NoAddress,
        },
{
    match get_real_ip(remote_address) {
        Some(ip_address) => VisitStep::Touch { ip_address, last_visit_date: now },
        None => VisitStep::NoAddress,
    }
}

/// The first step of recording a visit now. What the clock reads is not known here, so
/// the date of the visit is left open.
pub fn begin_visit(remote_address: Option<&str>) -> (step: VisitStep)
    ensures
        match remote_address {
            Some(raw) => step matches VisitStep::Touch { ip_address, .. } && ip_address@
                == real_ip(raw@),
            None => step is NoAddress,
        },
{
    begin_visit_at(remote_address, timestamp_now())
}

/// The step after the update: a visitor that was found is done with; for one that was
/// not, the lookup service is asked; and a failed update ends the recording.
pub fn after_touch(ip_address: String, outcome: Result<bool, String>) -> (step: VisitStep)
    ensures
        match outcome {
            Ok(true) => step matches VisitStep::Done { outcome: Ok(_) },
            Ok(false) => step matches VisitStep::LookUp { ip_address: ip, url } && ip
                == ip_address && url@ == lookup_url(ip_address@),
            Err(why) => step matches VisitStep::Done { outcome: Err(StaccError::MongoDB(text)) }
                && text == why,
        },
{
    match outcome {
        Ok(found) => {
            if found {
                VisitStep::Done { outcome: Ok(()) }
            } else {
                let url = ip_lookup_url(ip_address.as_str());
                VisitStep::LookUp { ip_address, url }
            }
        },
        Err(why) => VisitStep::Done { outcome: Err(StaccError::MongoDB(why)) },
    }
}

/// The step after the lookup, at `now`: the new visitor is inserted, with what the lookup
/// service told, or without where it told nothing.
pub fn after_lookup_at(ip_address: String, ip_data: Option<IPData>, now: String) -> (step:
    VisitStep)
    ensures
        step matches VisitStep::Insert { visitor } && is_new_visitor(
            visitor,
            ip_address@,
            now@,
            ip_data,
        ),
{
    let mut visitor = Visitor::first_seen(ip_address, now);
    visitor.ip_data = ip_data;
    VisitStep::Insert { visitor }
}

/// The step after the lookup, now. What the clock reads is not known here, so the date
/// of the first visit is left open.
pub fn after_lookup(ip_address: String, ip_data: Option<IPData>) -> (step: VisitStep)
    ensures
        step matches VisitStep::Insert { visitor } && is_new_visitor(
            visitor,
            ip_address@,
            visitor.first_visit_date@,
            ip_data,
        ),
{
    after_lookup_at(ip_address, ip_data, timestamp_now())
}

/// How the recording ends, given how the last update or insert went.
pub fn after_store(outcome: Result<(), String>) -> (end: Result<(), StaccError>)
    ensures
        match outcome {
            Ok(_) => end is Ok,
            Err(why) => end matches Err(StaccError::MongoDB(text)) && text == why,
        },
{
    match outcome {
        Ok(_) => Ok(()),
        Err(why) => Err(StaccError::MongoDB(why)),
    }
}

/// The field of a visitor's record in which the fetches of `post_id` are counted.
pub open spec fn visited_field(post_id: Seq<char>) -> Seq<char> {
    "visited_posts."@ + post_id
}

/// The step after the post's own counter was raised: a failure ends the recording; else
/// the fetch is counted for the visitor, where the request tells an address.
pub fn after_view_count(
    outcome: Result<(), String>,
    post_id: &str,
    remote_address: Option<&str>,
) -> (step: PostViewStep)
    ensures
        match (outcome, remote_address) {
            (Err(why), _) => step matches PostViewStep::Done {
                outcome: Err(StaccError::MongoDB(text)),
            } && text == why,
            (Ok(_), Some(raw)) => step matches PostViewStep::CountVisit {
                ip_address,
                post_id: id,
                field,
            } && ip_address@ == real_ip(raw@) && id@ == post_id@ && field@ == visited_field(
                post_id@,
            ),
            (Ok(_), None) => step matches PostViewStep::NoAddress { post_id: id } && id@
                == post_id@,
        },
{
    match outcome {
        Err(why) => PostViewStep::Done { outcome: Err(StaccError::MongoDB(why)) },
        Ok(_) => match get_real_ip(remote_address) {
            Some(ip_address) => PostViewStep::CountVisit {
                ip_address,
                post_id: post_id.to_owned(),
                field: followed_by("visited_posts.", post_id),
            },
            None => PostViewStep::NoAddress { post_id: post_id.to_owned() },
        },
    }
}

/// What a visit from `ip_address` at `now` makes of the visitors: the first record that
/// comes from there is a visit further, or, where there is none, a new record stands at
/// the end, with what the lookup service told.
pub open spec fn visit_recorded(
    before: Seq<Visitor>,
    after: Seq<Visitor>,
    ip_address: Seq<char>,
    now: Seq<char>,
    ip_data: Option<IPData>,
) -> bool {
    let at = first_index_of(addresses(before), ip_address);
    if at < before.len() {
        same_but_at(before, after, at) && is_return_visit(before[at], after[at], now)
    } else {
        &&& after.len() == before.len() + 1
        &&& forall|j: int| 0 <= j < before.len() ==> #[trigger] after[j] == before[j]
        &&& is_new_visitor(after.last(), ip_address, now, ip_data)
    }
}

/// What a visit from `ip_address` does to the number of its records and of its visits: an
/// address without a record gets exactly one, with one visit; an address with a record
/// gets no other, and its first record counts one visit more.
pub open spec fn visit_counted_once(
    before: Seq<Visitor>,
    after: Seq<Visitor>,
    ip_address: Seq<char>,
) -> bool {
    let at = first_index_of(addresses(before), ip_address);
    if occurrences(addresses(before), ip_address) == 0 {
        &&& at == before.len()
        &&& after.len() == before.len() + 1
        &&& occurrences(addresses(after), ip_address) == 1
        &&& after[at].ip_address@ == ip_address
        &&& after[at].refresh_count == 1
    } else {
        &&& at < before.len()
        &&& after.len() == before.len()
        &&& occurrences(addresses(after), ip_address) == occurrences(
            addresses(before),
            ip_address,
        )
        &&& after[at].ip_address@ == ip_address
        &&& after[at].refresh_count == before[at].refresh_count + 1
    }
}

/// Records a visit at `now` in the collections: where the request tells an address, one
/// more visit is counted on its record, and where it has none, a record is made, with
/// `ip_data` as what the lookup service told. Where the request tells no address, nothing
/// changes.
pub fn log_visitor_data(
    mongo: &mut Mongo,
    remote_address: Option<&str>,
    now: &str,
    ip_data: Option<IPData>,
) -> (outcome: Result<(), StaccError>)
    requires
        remote_address matches Some(raw) ==> {
            let at = old(mongo).visitor_at(real_ip(raw@));
            at < old(mongo).visitor_collection@.len() ==> old(
                mongo,
            ).visitor_collection@[at].refresh_count < i32::MAX
        },
    ensures
        outcome is Ok,
        final(mongo).same_but_visitors(old(mongo)),
        match remote_address {
            Some(raw) => {
                &&& visit_recorded(
                    old(mongo).visitor_collection@,
                    final(mongo).visitor_collection@,
                    real_ip(raw@),
                    now@,
                    ip_data,
                )
                &&& visit_counted_once(
                    old(mongo).visitor_collection@,
                    final(mongo).visitor_collection@,
                    real_ip(raw@),
                )
            },
            None => final(mongo).visitor_collection@ == old(mongo).visitor_collection@,
        },
{
    let ghost before = mongo.visitor_collection@;
    let outcome = match begin_visit_at(remote_address, now.to_owned()) {
        VisitStep::Touch { ip_address, last_visit_date } => {
            let found = mongo.touch_visitor(ip_address.as_str(), last_visit_date);
            match after_touch(ip_address, Ok(found)) {
                VisitStep::LookUp { ip_address, url: _ } => {
                    match after_lookup_at(ip_address, ip_data, now.to_owned()) {
                        VisitStep::Insert { visitor } => {
                            let _ = mongo.insert_visitor(visitor);
                            after_store(Ok(()))
                        },
                        VisitStep::Done { outcome } => outcome,
                        _ => Ok(()),
                    }
                },
                VisitStep::Done { outcome } => outcome,
                _ => Ok(()),
            }
        },
        VisitStep::Done { outcome } => outcome,
        _ => Ok(()),
    };
    proof {
        if let Some(raw) = remote_address {
            lemma_visit_counts_once(before, mongo.visitor_collection@, real_ip(raw@), now@, ip_data);
        }
    }
    outcome
}

/// Records a fetch of `post_id` in the collections: the post's own counter goes up by
/// one, where there is such a post; and, where the request tells an address, the fetch
/// is counted on the record of that address, which is made where there is none.
pub fn log_post_view(mongo: &mut Mongo, post_id: &str, remote_address: Option<&str>) -> (outcome:
    Result<(), StaccError>)
    requires
        old(mongo).post_at(post_id@) < old(mongo).posts_collection@.len() ==> old(
            mongo,
        ).posts_collection@[old(mongo).post_at(post_id@)].view_count < i32::MAX,
        remote_address matches Some(raw) ==> {
            let at = old(mongo).visitor_at(real_ip(raw@));
            at < old(mongo).visitor_collection@.len() ==> count_of(
                old(mongo).visitor_collection@[at].visited_posts@,
                post_id@,
            ) < u64::MAX
        },
    ensures
        outcome is Ok,
        final(mongo).backgrounds_collection == old(mongo).backgrounds_collection,
        final(mongo).stories_collection == old(mongo).stories_collection,
        crate::api::posts::view_counted(
            old(mongo).posts_collection@,
            final(mongo).posts_collection@,
            post_id@,
        ),
        match remote_address {
            Some(raw) => post_visit_recorded(
                old(mongo).visitor_collection@,
                final(mongo).visitor_collection@,
                real_ip(raw@),
                post_id@,
            ),
            None => final(mongo).visitor_collection@ == old(mongo).visitor_collection@,
        },
{
    let _ = mongo.increment_views(post_id);
    match after_view_count(Ok(()), post_id, remote_address) {
        PostViewStep::CountVisit { ip_address, post_id, field: _ } => {
            let _ = mongo.count_post_visit(ip_address.as_str(), post_id.as_str());
            after_store(Ok(()))
        },
        _ => Ok(()),
    }
}

/// The first visit from an address leaves exactly one record of it, with one visit; every
/// later visit adds one visit to that record and makes no other.
pub proof fn lemma_visit_counts_once(
    before: Seq<Visitor>,
    after: Seq<Visitor>,
    ip_address: Seq<char>,
    now: Seq<char>,
    ip_data: Option<IPData>,
)
    requires
        visit_recorded(before, after, ip_address, now, ip_data),
    ensures
        visit_counted_once(before, after, ip_address),
{
    lemma_occurs_iff_found(addresses(before), ip_address);
    lemma_first_index_of(addresses(before), ip_address);
    let at = first_index_of(addresses(before), ip_address);
    if at < before.len() {
        assert(addresses(after) =~= addresses(before));
    } else {
        assert(addresses(after) =~= addresses(before).push(ip_address));
        lemma_occurrences_push(addresses(before), ip_address, ip_address);
    }
}

/// Two visits in a row from an address that was never seen leave one record of it, with
/// two visits.
pub proof fn lemma_two_visits_make_one_record(
    before: Seq<Visitor>,
    between: Seq<Visitor>,
    after: Seq<Visitor>,
    ip_address: Seq<char>,
    first: Seq<char>,
    second: Seq<char>,
    ip_data: Option<IPData>,
    later_ip_data: Option<IPData>,
)
    requires
        occurrences(addresses(before), ip_address) == 0,
        visit_recorded(before, between, ip_address, first, ip_data),
        visit_recorded(between, after, ip_address, second, later_ip_data),
    ensures
        occurrences(addresses(after), ip_address) == 1,
        after.len() == before.len() + 1,
        after[before.len() as int].ip_address@ == ip_address,
        after[before.len() as int].refresh_count == 2,
{
    lemma_visit_counts_once(before, between, ip_address, first, ip_data);
    lemma_visit_counts_once(between, after, ip_address, second, later_ip_data);
    lemma_first_index_of(addresses(before), ip_address);
    assert forall|j: int| 0 <= j < before.len() implies addresses(between)[j] != ip_address by {
        assert(between[j] == before[j]);
        assert(addresses(before)[j] != ip_address);
    }
    lemma_first_index_unique(addresses(between), ip_address, before.len() as int);
}

/// Two first visits from one address that overlap leave one record of it, with two
/// visits: where neither found a record and both go on to insert, the insert that comes
/// second counts a visit on the record that the first one made.
pub proof fn lemma_overlapping_first_visits_make_one_record(
    before: Seq<Visitor>,
    between: Seq<Visitor>,
    after: Seq<Visitor>,
    ip_address: Seq<char>,
    first: Visitor,
    second: Visitor,
)
    requires
        occurrences(addresses(before), ip_address) == 0,
        first.ip_address@ == ip_address,
        second.ip_address@ == ip_address,
        first.refresh_count == 1,
        visitor_settled(before, between, first),
        visitor_settled(between, after, second),
    ensures
        occurrences(addresses(after), ip_address) == 1,
        after.len() == before.len() + 1,
        after[before.len() as int].ip_address@ == ip_address,
        after[before.len() as int].refresh_count == 2,
        after[before.len() as int].ip_data == first.ip_data,
        forall|j: int| 0 <= j < before.len() ==> #[trigger] after[j] == before[j],
{
    lemma_occurs_iff_found(addresses(before), ip_address);
    lemma_first_index_of(addresses(before), ip_address);
    assert(addresses(between) =~= addresses(before).push(ip_address));
    lemma_occurrences_push(addresses(before), ip_address, ip_address);
    assert forall|j: int| 0 <= j < before.len() implies addresses(between)[j] != ip_address by {
        assert(addresses(before)[j] != ip_address);
    }
    lemma_first_index_unique(addresses(between), ip_address, before.len() as int);
    assert(addresses(after) =~= addresses(between));
}

/// A visit deletes no record, leaves every record its address and what is known of it,
/// and keeps the number of visits of every record at one or more.
pub proof fn lemma_visit_keeps_records(
    before: Seq<Visitor>,
    after: Seq<Visitor>,
    ip_address: Seq<char>,
    now: Seq<char>,
    ip_data: Option<IPData>,
)
    requires
        visit_recorded(before, after, ip_address, now, ip_data),
    ensures
        before.len() <= after.len(),
        forall|j: int|
            0 <= j < before.len() ==> (#[trigger] after[j]).ip_address == before[j].ip_address
                && after[j].ip_data == before[j].ip_data && after[j].first_visit_date
                == before[j].first_visit_date,
        all_valid(before) ==> all_valid(after),
{
    lemma_first_index_of(addresses(before), ip_address);
    let at = first_index_of(addresses(before), ip_address);
    if all_valid(before) {
        assert forall|j: int| 0 <= j < after.len() implies (#[trigger] after[j]).valid() by {
            if j < before.len() {
                assert(before[j].valid());
            }
        }
    }
}

} // verus!
