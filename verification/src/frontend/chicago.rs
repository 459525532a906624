//! The incident records of the two Chicago data sets and the summaries drawn from them.

use crate::frontend::crime_codes::{crime_description, describe_crime, UNKNOWN_CRIME};
use crate::tally::FrequencyTable;
use crate::text::without_trailing;
use vstd::prelude::*;
use vstd::string::*;

verus! {

/// The view of a text that may be missing.
pub open spec fn optional_text(value: Option<String>) -> Option<Seq<char>> {
    match value {
        Some(text) => Some(text@),
        None => None,
    }
}

/// Where an incident took place.
#[derive(Debug)]
pub struct Location {
    /// Longitude first, latitude last, each as the bit pattern of its IEEE 754 double.
    pub coordinates: Vec<u64>,
}

impl Location {
    /// The point to plot as `(longitude, latitude)`: the first and the last coordinate,
    /// and none where there are no coordinates.
    pub open spec fn spot(&self) -> Option<(u64, u64)> {
        if self.coordinates@.len() == 0 {
            None
        } else {
            Some((self.coordinates@.first(), self.coordinates@.last()))
        }
    }

    /// The point to plot as `(longitude, latitude)`.
    pub fn point(&self) -> (point: Option<(u64, u64)>)
        ensures
            point == self.spot(),
    {
        let n = self.coordinates.len();
        if n == 0 {
            None
        } else {
            Some((self.coordinates[0], self.coordinates[n - 1]))
        }
    }
}

/// One gunfire alert. A field that the source left out is `None`.
#[derive(Debug)]
pub struct ShotData {
    /// The block on which the shots were heard.
    pub block: Option<String>,
    /// The community area in which the shots were heard.
    pub community_area: Option<String>,
    /// When the shots were heard, as the source wrote it.
    pub date: String,
    /// The kind of alert.
    pub incident_type_description: Option<String>,
    /// Where the shots were heard.
    pub location: Location,
    /// The number of rounds detected.
    pub rounds: Option<String>,
    /// The zip code in which the shots were heard.
    pub zip_code: Option<String>,
}

/// The dimensions along which gunfire alerts are counted.
#[derive(Clone, Copy, Debug, PartialEq, Eq, Structural)]
pub enum ShotDimension {
    Blocks,
    CommunityAreas,
    Dates,
    IncidentTypes,
    Rounds,
    ZipCodes,
}

impl ShotData {
    /// The label under which this alert counts in `dimension`, if it counts there: the
    /// field's text, for a block without the commas that end it. Nothing counts under
    /// `Dates`.
    pub open spec fn label(&self, dimension: ShotDimension) -> Option<Seq<char>> {
        match dimension {
            ShotDimension::Blocks => match self.block {
                Some(block) => Some(without_trailing(block@, ',')),
                None => None,
            },
            ShotDimension::CommunityAreas => optional_text(self.community_area),
            ShotDimension::Dates => None,
            ShotDimension::IncidentTypes => optional_text(self.incident_type_description),
            ShotDimension::Rounds => optional_text(self.rounds),
            ShotDimension::ZipCodes => optional_text(self.zip_code),
        }
    }
}

/// One victim of a homicide or a non-fatal shooting. A field that the source left out is
/// `None`.
#[derive(Debug)]
pub struct ViolenceData {
    /// The age range of the victim.
    pub age: Option<String>,
    /// The community area in which the incident took place.
    pub community_area: Option<String>,
    /// When the incident took place, as the source wrote it.
    pub date: String,
    /// Whether the victim was shot: `YES` or `NO`.
    pub gunshot_injury_i: Option<String>,
    /// The Illinois Uniform Crime Reporting code of the incident.
    pub incident_iucr_cd: Option<String>,
    /// The name of the incident.
    pub incident_primary: String,
    /// Where the incident took place.
    pub location: Location,
    /// What kind of place the incident took place in.
    pub location_description: Option<String>,
    /// The race of the victim, abbreviated.
    pub race: Option<String>,
    /// The sex of the victim, as one letter.
    pub sex: Option<String>,
    /// The FBI's code for the incident.
    pub victimization_fbi_cd: String,
    /// The FBI's description of the incident.
    pub victimization_fbi_descr: String,
    /// The zip code in which the incident took place.
    pub zip_code: Option<String>,
}

/// The dimensions along which victims are counted.
#[derive(Clone, Copy, Debug, PartialEq, Eq, Structural)]
pub enum ViolenceDimension {
    Ages,
    CommunityAreas,
    Dates,
    GunInjuryCount,
    IncidentTypes,
    LocationDescriptions,
    VictimRaces,
    VictimSexes,
    ZipCodes,
}

impl ViolenceData {
    /// The description of this record's crime code, where it has a code.
    pub open spec fn crime_label(&self) -> Option<Seq<char>> {
        match self.incident_iucr_cd {
            Some(code) => Some(crime_description(code@)),
            None => None,
        }
    }

    /// The label under which this record counts in `dimension`, if it counts there: the
    /// field's text, for the incident type the description of the crime code. Nothing
    /// counts under `Dates`.
    pub open spec fn label(&self, dimension: ViolenceDimension) -> Option<Seq<char>> {
        match dimension {
            ViolenceDimension::Ages => optional_text(self.age),
            ViolenceDimension::CommunityAreas => optional_text(self.community_area),
            ViolenceDimension::Dates => None,
            ViolenceDimension::GunInjuryCount => optional_text(self.gunshot_injury_i),
            ViolenceDimension::IncidentTypes => self.crime_label(),
            ViolenceDimension::LocationDescriptions => optional_text(self.location_description),
            ViolenceDimension::VictimRaces => optional_text(self.race),
            ViolenceDimension::VictimSexes => optional_text(self.sex),
            ViolenceDimension::ZipCodes => optional_text(self.zip_code),
        }
    }

    /// The description of this record's crime code: `UNKNOWN` for a code that the table of
    /// codes does not hold, and for a record without a code.
    pub fn get_crime_description(&self) -> (description: String)
        ensures
            description@ == match self.incident_iucr_cd {
                Some(code) => crime_description(code@),
                None => UNKNOWN_CRIME@,
            },
    {
        match &self.incident_iucr_cd {
            Some(code) => describe_crime(code.as_str()),
            None => UNKNOWN_CRIME.to_owned(),
        }
    }
}

/// The summary of the gunfire alerts: one table for each dimension, and the range of
/// dates that the alerts span.
#[derive(Debug)]
pub struct CleanedShotData {
    /// How often each block was named.
    pub sorted_blocks: FrequencyTable,
    /// How often each community area was named.
    pub sorted_community_areas: FrequencyTable,
    /// How often each date was named.
    pub sorted_dates: FrequencyTable,
    /// How often each kind of alert was named.
    pub sorted_incident_types: FrequencyTable,
    /// How often each number of rounds was named.
    pub sorted_rounds: FrequencyTable,
    /// How often each zip code was named.
    pub sorted_zip_codes: FrequencyTable,
    /// The earliest and the latest date, both empty while no date was seen.
    pub time_range: (String, String),
}

impl CleanedShotData {
    /// The table that stands for `dimension`.
    pub open spec fn table(&self, dimension: ShotDimension) -> Seq<(Seq<char>, int)> {
        match dimension {
            ShotDimension::Blocks => self.sorted_blocks@,
            ShotDimension::CommunityAreas => self.sorted_community_areas@,
            ShotDimension::Dates => self.sorted_dates@,
            ShotDimension::IncidentTypes => self.sorted_incident_types@,
            ShotDimension::Rounds => self.sorted_rounds@,
            ShotDimension::ZipCodes => self.sorted_zip_codes@,
        }
    }

    /// The range of dates as a pair of texts.
    pub open spec fn range(&self) -> (Seq<char>, Seq<char>) {
        (self.time_range.0@, self.time_range.1@)
    }

    /// A summary of no alerts: every table empty, and an empty range.
    pub fn new() -> (summary: Self)
        ensures
            forall|dimension: ShotDimension| #[trigger]
                summary.table(dimension) == Seq::<(Seq<char>, int)>::empty(),
            summary.range() == (Seq::<char>::empty(), Seq::<char>::empty()),
    {
        Self {
            sorted_blocks: FrequencyTable::new(),
            sorted_community_areas: FrequencyTable::new(),
            sorted_dates: FrequencyTable::new(),
            sorted_incident_types: FrequencyTable::new(),
            sorted_rounds: FrequencyTable::new(),
            sorted_zip_codes: FrequencyTable::new(),
            time_range: (String::new(), String::new()),
        }
    }
}

/// The summary of the victims: one table for each dimension, and the range of dates that
/// the incidents span.
#[derive(Debug)]
pub struct CleanedViolenceData {
    /// How often each age range was named.
    pub sorted_ages: FrequencyTable,
    /// How often each community area was named.
    pub sorted_community_areas: FrequencyTable,
    /// How often each date was named.
    pub sorted_dates: FrequencyTable,
    /// How often a gunshot injury was affirmed and denied.
    pub sorted_gun_injury_count: FrequencyTable,
    /// How often each kind of incident was named, by the description of its crime code.
    pub sorted_incident_types: FrequencyTable,
    /// How often each kind of place was named.
    pub sorted_location_descriptions: FrequencyTable,
    /// How often each race was named.
    pub sorted_victim_races: FrequencyTable,
    /// How often each sex was named.
    pub sorted_victim_sexes: FrequencyTable,
    /// How often each zip code was named.
    pub sorted_zip_codes: FrequencyTable,
    /// The earliest and the latest date, both empty while no date was seen.
    pub time_range: (String, String),
}

impl CleanedViolenceData {
    /// The table that stands for `dimension`.
    pub open spec fn table(&self, dimension: ViolenceDimension) -> Seq<(Seq<char>, int)> {
        match dimension {
            ViolenceDimension::Ages => self.sorted_ages@,
            ViolenceDimension::CommunityAreas => self.sorted_community_areas@,
            ViolenceDimension::Dates => self.sorted_dates@,
            ViolenceDimension::GunInjuryCount => self.sorted_gun_injury_count@,
            ViolenceDimension::IncidentTypes => self.sorted_incident_types@,
            ViolenceDimension::LocationDescriptions => self.sorted_location_descriptions@,
            ViolenceDimension::VictimRaces => self.sorted_victim_races@,
            ViolenceDimension::VictimSexes => self.sorted_victim_sexes@,
            ViolenceDimension::ZipCodes => self.sorted_zip_codes@,
        }
    }

    /// The range of dates as a pair of texts.
    pub open spec fn range(&self) -> (Seq<char>, Seq<char>) {
        (self.time_range.0@, self.time_range.1@)
    }

    /// A summary of no records: every table empty, and an empty range.
    pub fn new() -> (summary: Self)
        ensures
            forall|dimension: ViolenceDimension| #[trigger]
                summary.table(dimension) == Seq::<(Seq<char>, int)>::empty(),
            summary.range() == (Seq::<char>::empty(), Seq::<char>::empty()),
    {
        Self {
            sorted_ages: FrequencyTable::new(),
            sorted_community_areas: FrequencyTable::new(),
            sorted_dates: FrequencyTable::new(),
            sorted_gun_injury_count: FrequencyTable::new(),
            sorted_incident_types: FrequencyTable::new(),
            sorted_location_descriptions: FrequencyTable::new(),
            sorted_victim_races: FrequencyTable::new(),
            sorted_victim_sexes: FrequencyTable::new(),
            sorted_zip_codes: FrequencyTable::new(),
            time_range: (String::new(), String::new()),
        }
    }
}

} // verus!
