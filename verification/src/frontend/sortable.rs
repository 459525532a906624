//! Ordering the tables of a summary by count.

use crate::frontend::abstractable_hashmap::AbstractableHashMap;
use crate::frontend::chicago::{
    CleanedShotData, CleanedViolenceData, ShotDimension, ViolenceDimension,
};
use crate::tally::{ranked, FrequencyTable};
use vstd::prelude::*;

verus! {

/// A summary whose tables can be put in the order of their counts.
pub trait SortableStruct: AbstractableHashMap {
    /// Orders every table of the summary by count, highest first, and leaves the range of
    /// dates as it is.
    fn sort_hashmaps(&mut self)
        ensures
            forall|dimension: Self::Dimension| #[trigger]
                final(self).counts(dimension) == ranked(old(self).counts(dimension)),
            final(self).dates() == old(self).dates(),
    ;

    /// The table with its entries ordered by count, highest first.
    fn sort_single_hashmap(&self, unsorted_hashmap: &FrequencyTable) -> (sorted: FrequencyTable)
        ensures
            sorted@ == ranked(unsorted_hashmap@),
    {
        unsorted_hashmap.sorted()
    }
}

impl SortableStruct for CleanedShotData {
    fn sort_hashmaps(&mut self) {
        self.sorted_blocks = self.sorted_blocks.sorted();
        self.sorted_community_areas = self.sorted_community_areas.sorted();
        self.sorted_dates = self.sorted_dates.sorted();
        self.sorted_incident_types = self.sorted_incident_types.sorted();
        self.sorted_rounds = self.sorted_rounds.sorted();
        self.sorted_zip_codes = self.sorted_zip_codes.sorted();
        proof {
            assert forall|dimension: ShotDimension| #[trigger]
                self.counts(dimension) == ranked(old(self).counts(dimension)) by {
                match dimension {
                    ShotDimension::Blocks => {},
                    ShotDimension::CommunityAreas => {},
                    ShotDimension::Dates => {},
                    ShotDimension::IncidentTypes => {},
                    ShotDimension::Rounds => {},
                    ShotDimension::ZipCodes => {},
                }
            }
        }
    }
}

impl SortableStruct for CleanedViolenceData {
    fn sort_hashmaps(&mut self) {
        self.sorted_ages = self.sorted_ages.sorted();
        self.sorted_community_areas = self.sorted_community_areas.sorted();
        self.sorted_dates = self.sorted_dates.sorted();
        self.sorted_gun_injury_count = self.sorted_gun_injury_count.sorted();
        self.sorted_incident_types = self.sorted_incident_types.sorted();
        self.sorted_location_descriptions = self.sorted_location_descriptions.sorted();
        self.sorted_victim_races = self.sorted_victim_races.sorted();
        self.sorted_victim_sexes = self.sorted_victim_sexes.sorted();
        self.sorted_zip_codes = self.sorted_zip_codes.sorted();
        proof {
            assert forall|dimension: ViolenceDimension| #[trigger]
                self.counts(dimension) == ranked(old(self).counts(dimension)) by {
                match dimension {
                    ViolenceDimension::Ages => {},
                    ViolenceDimension::CommunityAreas => {},
                    ViolenceDimension::Dates => {},
                    ViolenceDimension::GunInjuryCount => {},
                    ViolenceDimension::IncidentTypes => {},
                    ViolenceDimension::LocationDescriptions => {},
                    ViolenceDimension::VictimRaces => {},
                    ViolenceDimension::VictimSexes => {},
                    ViolenceDimension::ZipCodes => {},
                }
            }
        }
    }
}

} // verus!
