//! Visitors, known by the address they come from.

use crate::tally::FrequencyTable;
use chrono::Utc;
use vstd::prelude::*;
use vstd::string::*;

verus! {

/// What the lookup service tells about an address.
#[derive(Debug)]
#[allow(non_snake_case)]
pub struct IPData {
    /// The number and the organisation of the autonomous system.
    pub autonomous_system: String,
    /// The city.
    pub city: String,
    /// The continent.
    pub continent: String,
    /// The country.
    pub country: String,
    /// The code of the country.
    pub countryCode: String,
    /// The currency.
    pub currency: String,
    /// Whether the address belongs to a hosting provider or a data centre.
    pub hosting: bool,
    /// The internet service provider.
    pub isp: String,
    /// The latitude, as the bit pattern of its IEEE 754 double.
    pub lat: u64,
    /// The longitude, as the bit pattern of its IEEE 754 double.
    pub lon: u64,
    /// Whether the address belongs to a mobile network.
    pub mobile: bool,
    /// The organisation.
    pub org: String,
    /// Whether the address is a proxy, a VPN or a Tor exit.
    pub proxy: bool,
    /// The address that was looked up.
    pub query: String,
    /// The region, abbreviated.
    pub region: String,
    /// The name of the region.
    pub regionName: String,
    /// The reverse DNS name of the address.
    pub reverse: String,
    /// `success` or `fail`.
    pub status: String,
    /// The time zone.
    pub timezone: String,
    /// The zip code.
    pub zip: String,
}

/// A visitor of the site.
#[derive(Debug)]
pub struct Visitor {
    /// When the address was first seen.
    pub first_visit_date: String,
    /// The address, without a port.
    pub ip_address: String,
    /// What the lookup service told about the address, if it told anything.
    pub ip_data: Option<IPData>,
    /// When the address was last seen again; `None` until the second visit.
    pub last_visit_date: Option<String>,
    /// The number of visits.
    pub refresh_count: i32,
    /// For each post that the visitor fetched, how often.
    pub visited_posts: FrequencyTable,
}

/// Every record counts at least one visit.
pub open spec fn all_valid(visitors: Seq<Visitor>) -> bool {
    forall|j: int| 0 <= j < visitors.len() ==> (#[trigger] visitors[j]).valid()
}

impl Visitor {
    /// What holds of every record that a visit made or reached: it counts at least one
    /// visit.
    pub open spec fn valid(&self) -> bool {
        self.refresh_count >= 1
    }

    /// Whether this is the record of a visitor seen once, at `now`, from `ip_address`:
    /// one visit, no later visit, no post fetched and nothing known of the address.
    pub open spec fn is_first_visit(&self, ip_address: Seq<char>, now: Seq<char>) -> bool {
        &&& self.first_visit_date@ == now
        &&& self.ip_address@ == ip_address
        &&& self.ip_data is None
        &&& self.last_visit_date is None
        &&& self.refresh_count == 1
        &&& self.visited_posts@ == Seq::<(Seq<char>, int)>::empty()
    }

    /// The record of a visitor first seen at `now`.
    pub fn first_seen(ip_address: String, now: String) -> (visitor: Self)
        ensures
            visitor.is_first_visit(ip_address@, now@),
            visitor.valid(),
    {
        Self {
            first_visit_date: now,
            ip_address,
            ip_data: None,
            last_visit_date: None,
            refresh_count: 1,
            visited_posts: FrequencyTable::new(),
        }
    }

    /// The record of a visitor first seen now. What the clock reads is not known here, so
    /// the date of the first visit is left open.
    pub fn new(ip_address: String) -> (visitor: Self)
        ensures
            visitor.is_first_visit(ip_address@, visitor.first_visit_date@),
            visitor.valid(),
    {
        Visitor::first_seen(ip_address, timestamp_now())
    }
}

/// Calls chrono's `Utc::now` and `DateTime::format` with `%Y-%m-%d %H:%M:%S`.
///
/// Trusted: nothing. The result is what the clock reads.
#[verifier::external_body]
pub(crate) fn timestamp_now() -> (now: String) {
    Utc::now().format("%Y-%m-%d %H:%M:%S").to_string()
}

} // verus!
