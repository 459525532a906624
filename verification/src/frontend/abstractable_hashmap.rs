//! Counting into, and ranking out of, the tables of a summary by dimension.

use crate::frontend::chicago::{
    CleanedShotData, CleanedViolenceData, ShotDimension, ViolenceDimension,
};
use crate::tally::{bump, count_of, descending, entries_view, ranked};
use vstd::prelude::*;
use vstd::string::*;

verus! {

/// A summary made of frequency tables, one for each value of `Dimension`.
pub trait AbstractableHashMap {
    /// What names a table of the summary.
    type Dimension;

    /// The entries of the table that stands for `dimension`, in the order in which its
    /// labels were first counted.
    spec fn counts(&self, dimension: Self::Dimension) -> Seq<(Seq<char>, int)>;

    /// The earliest and the latest date of the summary.
    spec fn dates(&self) -> (Seq<char>, Seq<char>);

    /// Counts one more sighting of `key` in the table of `dimension`, and leaves the other
    /// tables and the range of dates as they are.
    fn insert_or_increment(&mut self, dimension: Self::Dimension, key: &str)
        requires
            count_of(old(self).counts(dimension), key@) < u64::MAX,
        ensures
            final(self).counts(dimension) == bump(old(self).counts(dimension), key@),
            forall|other: Self::Dimension|
                other != dimension ==> #[trigger] final(self).counts(other) == old(self).counts(
                    other,
                ),
            final(self).dates() == old(self).dates(),
    ;

    /// The table of `dimension` as `(label, count)` pairs, highest count first; labels
    /// with equal counts stand in the order in which they were first counted.
    fn to_vec(&self, dimension: Self::Dimension) -> (out: Vec<(String, u64)>)
        ensures
            entries_view(out@) == ranked(self.counts(dimension)),
            descending(entries_view(out@)),
            out@.len() == self.counts(dimension).len(),
            entries_view(out@).to_multiset() == self.counts(dimension).to_multiset(),
    ;
}

impl AbstractableHashMap for CleanedShotData {
    type Dimension = ShotDimension;

    open spec fn counts(&self, dimension: ShotDimension) -> Seq<(Seq<char>, int)> {
        self.table(dimension)
    }

    open spec fn dates(&self) -> (Seq<char>, Seq<char>) {
        self.range()
    }

    fn insert_or_increment(&mut self, dimension: ShotDimension, key: &str) {
        match dimension {
            ShotDimension::Blocks => self.sorted_blocks.insert_or_increment(key),
            ShotDimension::CommunityAreas => self.sorted_community_areas.insert_or_increment(key),
            ShotDimension::Dates => self.sorted_dates.insert_or_increment(key),
            ShotDimension::IncidentTypes => self.sorted_incident_types.insert_or_increment(key),
            ShotDimension::Rounds => self.sorted_rounds.insert_or_increment(key),
            ShotDimension::ZipCodes => self.sorted_zip_codes.insert_or_increment(key),
        }
    }

    fn to_vec(&self, dimension: ShotDimension) -> (out: Vec<(String, u64)>) {
        match dimension {
            ShotDimension::Blocks => self.sorted_blocks.to_vec(),
            ShotDimension::CommunityAreas => self.sorted_community_areas.to_vec(),
            ShotDimension::Dates => self.sorted_dates.to_vec(),
            ShotDimension::IncidentTypes => self.sorted_incident_types.to_vec(),
            ShotDimension::Rounds => self.sorted_rounds.to_vec(),
            ShotDimension::ZipCodes => self.sorted_zip_codes.to_vec(),
        }
    }
}

impl AbstractableHashMap for CleanedViolenceData {
    type Dimension = ViolenceDimension;

    open spec fn counts(&self, dimension: ViolenceDimension) -> Seq<(Seq<char>, int)> {
        self.table(dimension)
    }

    open spec fn dates(&self) -> (Seq<char>, Seq<char>) {
        self.range()
    }

    fn insert_or_increment(&mut self, dimension: ViolenceDimension, key: &str) {
        match dimension {
            ViolenceDimension::Ages => self.sorted_ages.insert_or_increment(key),
            ViolenceDimension::CommunityAreas => self.sorted_community_areas.insert_or_increment(
                key,
            ),
            ViolenceDimension::Dates => self.sorted_dates.insert_or_increment(key),
            ViolenceDimension::GunInjuryCount => self.sorted_gun_injury_count.insert_or_increment(
                key,
            ),
            ViolenceDimension::IncidentTypes => self.sorted_incident_types.insert_or_increment(key),
            ViolenceDimension::LocationDescriptions => {
                self.sorted_location_descriptions.insert_or_increment(key)
            },
            ViolenceDimension::VictimRaces => self.sorted_victim_races.insert_or_increment(key),
            ViolenceDimension::VictimSexes => self.sorted_victim_sexes.insert_or_increment(key),
            ViolenceDimension::ZipCodes => self.sorted_zip_codes.insert_or_increment(key),
        }
    }

    fn to_vec(&self, dimension: ViolenceDimension) -> (out: Vec<(String, u64)>) {
        match dimension {
            ViolenceDimension::Ages => self.sorted_ages.to_vec(),
            ViolenceDimension::CommunityAreas => self.sorted_community_areas.to_vec(),
            ViolenceDimension::Dates => self.sorted_dates.to_vec(),
            ViolenceDimension::GunInjuryCount => self.sorted_gun_injury_count.to_vec(),
            ViolenceDimension::IncidentTypes => self.sorted_incident_types.to_vec(),
            ViolenceDimension::LocationDescriptions => self.sorted_location_descriptions.to_vec(),
            ViolenceDimension::VictimRaces => self.sorted_victim_races.to_vec(),
            ViolenceDimension::VictimSexes => self.sorted_victim_sexes.to_vec(),
            ViolenceDimension::ZipCodes => self.sorted_zip_codes.to_vec(),
        }
    }
}

} // verus!
