use stacc::frontend::abstractable_hashmap::AbstractableHashMap;
use stacc::frontend::chicago::{
    CleanedShotData, CleanedViolenceData, Location, ShotData, ShotDimension, ViolenceData,
    ViolenceDimension,
};
use stacc::frontend::crime_codes::{describe_crime, CRIME_CODES, CRIME_CODE_COUNT, UNKNOWN_CRIME};
use stacc::frontend::sortable::SortableStruct;
use stacc::frontend::violence::{clean_shot_data, clean_violence_data};

fn text(value: &str) -> Option<String> {
    Some(value.to_string())
}

fn shot(block: &str, area: &str, date: &str, kind: &str, rounds: &str, zip: &str) -> Option<ShotData> {
    Some(ShotData {
        block: text(block),
        community_area: text(area),
        date: date.to_string(),
        incident_type_description: text(kind),
        location: Location { coordinates: vec![] },
        rounds: text(rounds),
        zip_code: text(zip),
    })
}

fn victim(code: Option<&str>, age: &str, date: &str) -> Option<ViolenceData> {
    Some(ViolenceData {
        age: text(age),
        community_area: text("AUSTIN"),
        date: date.to_string(),
        gunshot_injury_i: text("YES"),
        incident_iucr_cd: code.map(str::to_string),
        incident_primary: "HOMICIDE".to_string(),
        location: Location { coordinates: vec![] },
        location_description: text("STREET"),
        race: text("BLK"),
        sex: text("M"),
        victimization_fbi_cd: "01A".to_string(),
        victimization_fbi_descr: "HOMICIDE".to_string(),
        zip_code: text("60644"),
    })
}

fn pairs(entries: &[(&str, u64)]) -> Vec<(String, u64)> {
    entries.iter().map(|entry| (entry.0.to_string(), entry.1)).collect()
}

const SHOT_DIMENSIONS: [ShotDimension; 6] = [
    ShotDimension::Blocks,
    ShotDimension::CommunityAreas,
    ShotDimension::Dates,
    ShotDimension::IncidentTypes,
    ShotDimension::Rounds,
    ShotDimension::ZipCodes,
];

const VIOLENCE_DIMENSIONS: [ViolenceDimension; 9] = [
    ViolenceDimension::Ages,
    ViolenceDimension::CommunityAreas,
    ViolenceDimension::Dates,
    ViolenceDimension::GunInjuryCount,
    ViolenceDimension::IncidentTypes,
    ViolenceDimension::LocationDescriptions,
    ViolenceDimension::VictimRaces,
    ViolenceDimension::VictimSexes,
    ViolenceDimension::ZipCodes,
];

fn sample_shots() -> Vec<Option<ShotData>> {
    vec![
        shot("100 N STATE ST,", "LOOP", "2023-05-01T13:45:00.000", "SINGLE GUNSHOT", "1", "60602"),
        None,
        shot("100 N STATE ST,", "LOOP", "2023-05-03T01:00:00.000", "MULTIPLE GUNSHOTS", "4", "60602"),
        shot("200 S WABASH AVE,", "LOOP", "2023-04-28T23:10:05.000", "MULTIPLE GUNSHOTS", "2", "60604"),
        Some(ShotData {
            block: None,
            community_area: text("AUSTIN"),
            date: "2023-05-02T00:00:00.000".to_string(),
            incident_type_description: None,
            location: Location { coordinates: vec![1, 2] },
            rounds: text("1"),
            zip_code: None,
        }),
    ]
}

#[test]
fn blocks_are_counted_without_their_trailing_commas() {
    let records = vec![
        shot("100 N STATE ST,", "LOOP", "2023-05-01T13:45:00.000", "SINGLE GUNSHOT", "1", "60602"),
        shot("100 N STATE ST,", "LOOP", "2023-05-01T13:50:00.000", "SINGLE GUNSHOT", "1", "60602"),
        shot("200 S WABASH AVE,", "LOOP", "2023-05-01T14:00:00.000", "SINGLE GUNSHOT", "1", "60604"),
    ];
    let summary = clean_shot_data(&records);
    assert_eq!(
        summary.to_vec(ShotDimension::Blocks),
        pairs(&[("100 N STATE ST", 2), ("200 S WABASH AVE", 1)])
    );
}

#[test]
fn an_unknown_crime_code_is_counted_as_unknown() {
    let records = vec![
        victim(Some("0110"), "20-29", "2023-05-01T13:45:00.000"),
        victim(Some("9Z9Z"), "30-39", "2023-05-02T13:45:00.000"),
        victim(Some("0110"), "20-29", "2023-05-03T13:45:00.000"),
    ];
    let summary = clean_violence_data(&records);
    assert_eq!(
        summary.to_vec(ViolenceDimension::IncidentTypes),
        pairs(&[("HOMICIDE FIRST DEGREE MURDER", 2), ("UNKNOWN", 1)])
    );
    assert_eq!(summary.to_vec(ViolenceDimension::Ages), pairs(&[("20-29", 2), ("30-39", 1)]));
}

#[test]
fn a_record_without_a_code_counts_in_the_other_tables_only() {
    let records = vec![
        victim(None, "20-29", "2023-05-01T13:45:00.000"),
        victim(Some("0130"), "20-29", "2023-05-02T13:45:00.000"),
    ];
    let summary = clean_violence_data(&records);
    assert_eq!(
        summary.to_vec(ViolenceDimension::IncidentTypes),
        pairs(&[("HOMICIDE SECOND DEGREE MURDER", 1)])
    );
    assert_eq!(summary.to_vec(ViolenceDimension::Ages), pairs(&[("20-29", 2)]));
    assert_eq!(summary.to_vec(ViolenceDimension::VictimSexes), pairs(&[("M", 2)]));
    assert_eq!(summary.to_vec(ViolenceDimension::GunInjuryCount), pairs(&[("YES", 2)]));
    assert_eq!(summary.to_vec(ViolenceDimension::LocationDescriptions), pairs(&[("STREET", 2)]));
    assert_eq!(summary.to_vec(ViolenceDimension::VictimRaces), pairs(&[("BLK", 2)]));
    assert_eq!(summary.to_vec(ViolenceDimension::CommunityAreas), pairs(&[("AUSTIN", 2)]));
    assert_eq!(summary.to_vec(ViolenceDimension::ZipCodes), pairs(&[("60644", 2)]));
    assert!(summary.to_vec(ViolenceDimension::Dates).is_empty());
}

#[test]
fn every_shot_table_is_filled_from_its_field() {
    let summary = clean_shot_data(&sample_shots());
    assert_eq!(
        summary.to_vec(ShotDimension::Blocks),
        pairs(&[("100 N STATE ST", 2), ("200 S WABASH AVE", 1)])
    );
    assert_eq!(
        summary.to_vec(ShotDimension::CommunityAreas),
        pairs(&[("LOOP", 3), ("AUSTIN", 1)])
    );
    assert_eq!(
        summary.to_vec(ShotDimension::IncidentTypes),
        pairs(&[("MULTIPLE GUNSHOTS", 2), ("SINGLE GUNSHOT", 1)])
    );
    assert_eq!(
        summary.to_vec(ShotDimension::Rounds),
        pairs(&[("1", 2), ("4", 1), ("2", 1)])
    );
    assert_eq!(
        summary.to_vec(ShotDimension::ZipCodes),
        pairs(&[("60602", 2), ("60604", 1)])
    );
    assert!(summary.to_vec(ShotDimension::Dates).is_empty());
}

#[test]
fn the_counts_of_a_table_add_up_to_the_records_that_name_the_dimension() {
    let records = sample_shots();
    let summary = clean_shot_data(&records);
    let named = |pick: fn(&ShotData) -> bool| {
        records.iter().flatten().filter(|record| pick(record)).count() as u64
    };
    let sum = |dimension| summary.to_vec(dimension).iter().map(|pair| pair.1).sum::<u64>();
    assert_eq!(sum(ShotDimension::Blocks), named(|record| record.block.is_some()));
    assert_eq!(sum(ShotDimension::Blocks), 3);
    assert_eq!(sum(ShotDimension::CommunityAreas), named(|record| record.community_area.is_some()));
    assert_eq!(sum(ShotDimension::CommunityAreas), 4);
    assert_eq!(
        sum(ShotDimension::IncidentTypes),
        named(|record| record.incident_type_description.is_some())
    );
    assert_eq!(sum(ShotDimension::Rounds), named(|record| record.rounds.is_some()));
    assert_eq!(sum(ShotDimension::ZipCodes), named(|record| record.zip_code.is_some()));
    assert_eq!(sum(ShotDimension::Dates), 0);
    for dimension in SHOT_DIMENSIONS {
        assert!(sum(dimension) <= records.len() as u64);
    }
}

#[test]
fn summarising_twice_gives_the_same_summary() {
    let records = sample_shots();
    let first = clean_shot_data(&records);
    let second = clean_shot_data(&records);
    for dimension in SHOT_DIMENSIONS {
        assert_eq!(first.to_vec(dimension), second.to_vec(dimension));
    }
    assert_eq!(first.time_range, second.time_range);

    let victims = vec![
        victim(Some("0110"), "20-29", "2023-05-01T13:45:00.000"),
        None,
        victim(Some("041A"), "0-19", "2022-12-31T23:59:59.000"),
    ];
    let first = clean_violence_data(&victims);
    let second = clean_violence_data(&victims);
    for dimension in VIOLENCE_DIMENSIONS {
        assert_eq!(first.to_vec(dimension), second.to_vec(dimension));
    }
    assert_eq!(first.time_range, second.time_range);
}

#[test]
fn the_range_runs_from_the_earliest_to_the_latest_date() {
    let summary = clean_shot_data(&sample_shots());
    assert_eq!(
        summary.time_range,
        ("2023/04/28 18:10:05 CDT".to_string(), "2023/05/02 20:00:00 CDT".to_string())
    );
    let shown = [
        "2023/05/01 08:45:00 CDT",
        "2023/05/02 20:00:00 CDT",
        "2023/04/28 18:10:05 CDT",
        "2023/05/01 19:00:00 CDT",
    ];
    for date in shown {
        assert!(summary.time_range.0.as_str() <= date);
        assert!(date <= summary.time_range.1.as_str());
    }
}

#[test]
fn a_date_that_cannot_be_read_is_kept_as_it_came() {
    let records = vec![
        shot("1 A ST", "LOOP", "2023-05-01T13:45:00.000", "SINGLE GUNSHOT", "1", "60602"),
        shot("1 A ST", "LOOP", "last week", "SINGLE GUNSHOT", "1", "60602"),
    ];
    let summary = clean_shot_data(&records);
    assert_eq!(
        summary.time_range,
        ("2023/05/01 08:45:00 CDT".to_string(), "last week".to_string())
    );
    assert_eq!(summary.to_vec(ShotDimension::Blocks), pairs(&[("1 A ST", 2)]));
}

#[test]
fn no_records_give_an_empty_summary() {
    let summary = clean_shot_data(&Vec::new());
    for dimension in SHOT_DIMENSIONS {
        assert!(summary.to_vec(dimension).is_empty());
    }
    assert_eq!(summary.time_range, (String::new(), String::new()));
    let summary = clean_violence_data(&vec![None, None]);
    for dimension in VIOLENCE_DIMENSIONS {
        assert!(summary.to_vec(dimension).is_empty());
    }
    assert_eq!(summary.time_range, (String::new(), String::new()));
}

#[test]
fn new_summaries_are_empty() {
    let shots = CleanedShotData::new();
    assert_eq!(shots.sorted_blocks.len(), 0);
    assert_eq!(shots.sorted_zip_codes.len(), 0);
    assert_eq!(shots.time_range, (String::new(), String::new()));
    let victims = CleanedViolenceData::new();
    assert_eq!(victims.sorted_ages.len(), 0);
    assert_eq!(victims.sorted_victim_sexes.len(), 0);
    assert_eq!(victims.time_range, (String::new(), String::new()));
}

#[test]
fn insert_or_increment_counts_in_the_named_table_only() {
    let mut summary = CleanedShotData::new();
    summary.insert_or_increment(ShotDimension::Rounds, "3");
    summary.insert_or_increment(ShotDimension::Rounds, "3");
    summary.insert_or_increment(ShotDimension::Dates, "2023/05/01");
    assert_eq!(summary.to_vec(ShotDimension::Rounds), pairs(&[("3", 2)]));
    assert_eq!(summary.to_vec(ShotDimension::Dates), pairs(&[("2023/05/01", 1)]));
    assert!(summary.to_vec(ShotDimension::Blocks).is_empty());
    assert_eq!(summary.time_range, (String::new(), String::new()));

    let mut victims = CleanedViolenceData::new();
    victims.insert_or_increment(ViolenceDimension::VictimSexes, "F");
    assert_eq!(victims.to_vec(ViolenceDimension::VictimSexes), pairs(&[("F", 1)]));
    assert!(victims.to_vec(ViolenceDimension::VictimRaces).is_empty());
}

#[test]
fn sort_hashmaps_orders_every_table_by_count() {
    let mut summary = clean_shot_data(&sample_shots());
    let before = summary.to_vec(ShotDimension::IncidentTypes);
    summary.sort_hashmaps();
    assert_eq!(summary.to_vec(ShotDimension::IncidentTypes), before);
    assert_eq!(summary.sorted_incident_types.get("MULTIPLE GUNSHOTS"), Some(2));
    let sorted = summary.sort_single_hashmap(&summary.sorted_rounds);
    assert_eq!(sorted.to_vec(), pairs(&[("1", 2), ("4", 1), ("2", 1)]));
}

#[test]
fn describe_crime_reads_the_table() {
    assert_eq!(describe_crime("0110"), "HOMICIDE FIRST DEGREE MURDER");
    assert_eq!(describe_crime("0130"), "HOMICIDE SECOND DEGREE MURDER");
    assert_eq!(describe_crime("502T"), "OTHER OFFENSE TAMPER WITH MOTOR VEHICLE");
    assert_eq!(describe_crime("0313"), "ROBBERY ARMED: OTHER DANGEROUS WEAPON");
    assert_eq!(describe_crime(""), UNKNOWN_CRIME);
    assert_eq!(describe_crime("110"), "UNKNOWN");
    assert_eq!(describe_crime("0110 "), "UNKNOWN");
    assert_eq!(CRIME_CODES.len(), CRIME_CODE_COUNT);
    for (code, description) in CRIME_CODES {
        assert_eq!(describe_crime(code), description);
    }
}

#[test]
fn get_crime_description_falls_back_on_unknown() {
    let with_code = victim(Some("0141"), "20-29", "x").unwrap();
    assert_eq!(with_code.get_crime_description(), "HOMICIDE INVOLUNTARY MANSLAUGHTER");
    let unknown = victim(Some("nope"), "20-29", "x").unwrap();
    assert_eq!(unknown.get_crime_description(), "UNKNOWN");
    let without = victim(None, "20-29", "x").unwrap();
    assert_eq!(without.get_crime_description(), "UNKNOWN");
}

#[test]
fn location_point_is_first_and_last_coordinate() {
    assert_eq!(Location { coordinates: vec![] }.point(), None);
    assert_eq!(Location { coordinates: vec![7] }.point(), Some((7, 7)));
    assert_eq!(Location { coordinates: vec![7, 9] }.point(), Some((7, 9)));
    assert_eq!(Location { coordinates: vec![7, 8, 9] }.point(), Some((7, 9)));
}

#[test]
fn the_range_starts_at_or_before_every_date_an_empty_one_among_them() {
    let records = vec![
        shot("1 A ST", "LOOP", "2023-05-01T13:45:00.000", "SINGLE GUNSHOT", "1", "60602"),
        shot("1 A ST", "LOOP", "", "SINGLE GUNSHOT", "1", "60602"),
        shot("1 A ST", "LOOP", "2023-06-01T13:45:00.000", "SINGLE GUNSHOT", "1", "60602"),
    ];
    let summary = clean_shot_data(&records);
    assert_eq!(summary.time_range, (String::new(), "2023/06/01 08:45:00 CDT".to_string()));
    for date in ["2023/05/01 08:45:00 CDT", "", "2023/06/01 08:45:00 CDT"] {
        assert!(summary.time_range.0.as_str() <= date);
        assert!(date <= summary.time_range.1.as_str());
    }

    let victims = vec![
        victim(Some("0110"), "20-29", "2023-05-01T13:45:00.000"),
        victim(Some("0110"), "20-29", ""),
        victim(Some("0110"), "20-29", "2023-06-01T13:45:00.000"),
    ];
    let summary = clean_violence_data(&victims);
    assert_eq!(summary.time_range, (String::new(), "2023/06/01 08:45:00 CDT".to_string()));
}

#[test]
fn the_range_of_dates_that_were_all_read_starts_at_the_first_of_them() {
    let records = vec![
        shot("1 A ST", "LOOP", "2023-05-01T13:45:00.000", "SINGLE GUNSHOT", "1", "60602"),
        None,
        shot("1 A ST", "LOOP", "2023-06-01T13:45:00.000", "SINGLE GUNSHOT", "1", "60602"),
        shot("1 A ST", "LOOP", "2023-05-15T13:45:00.000", "SINGLE GUNSHOT", "1", "60602"),
    ];
    let summary = clean_shot_data(&records);
    assert_eq!(
        summary.time_range,
        ("2023/05/01 08:45:00 CDT".to_string(), "2023/06/01 08:45:00 CDT".to_string())
    );
}

#[test]
fn every_record_with_an_unknown_code_counts_as_unknown_and_in_the_other_tables() {
    let records = vec![
        victim(Some("9999"), "20-29", "2023-05-01T13:45:00.000"),
        victim(Some("041A"), "30-39", "2023-05-02T13:45:00.000"),
        victim(Some("????"), "20-29", "2023-05-03T13:45:00.000"),
        victim(Some(""), "40-49", "2023-05-04T13:45:00.000"),
    ];
    let summary = clean_violence_data(&records);
    assert_eq!(summary.sorted_incident_types.get("UNKNOWN"), Some(3));
    assert_eq!(summary.sorted_incident_types.get("BATTERY AGGRAVATED: HANDGUN"), Some(1));
    for dimension in VIOLENCE_DIMENSIONS {
        let sum = summary.to_vec(dimension).iter().map(|pair| pair.1).sum::<u64>();
        if dimension == ViolenceDimension::Dates {
            assert_eq!(sum, 0);
        } else {
            assert_eq!(sum, 4);
        }
    }
}
