//! The summaries of the two incident data sets: every record counted once in each table
//! for which it has a value, and the range of dates that the records span.

use crate::frontend::chicago::{
    CleanedShotData, CleanedViolenceData, ShotData, ShotDimension, ViolenceData,
    ViolenceDimension,
};
use crate::frontend::crime_codes::{
    crime_description, is_known_code, lemma_unknown_code, UNKNOWN_CRIME,
};
use crate::frontend::date::{
    earliest_of, format_date, latest_of, lemma_range_holds_dates, lemma_range_push,
    normalized_date, range_holds, widen_range,
};
use crate::tally::{
    bump, count_of, lemma_count_at_most_total, lemma_tally, lemma_tally_push, tally, total,
    FrequencyTable,
};
use crate::text::trim_trailing;
use vstd::prelude::*;
use vstd::string::*;

verus! {

/// The labels that `records` give to `dimension`, in the order of the records. A record
/// that could not be read (`None`) gives none, and neither does a record without a value
/// for `dimension`.
pub open spec fn shot_labels(records: Seq<Option<ShotData>>, dimension: ShotDimension) -> Seq<
    Seq<char>,
>
    decreases records.len(),
{
    if records.len() == 0 {
        Seq::empty()
    } else {
        let rest = shot_labels(records.drop_last(), dimension);
        match records.last() {
            Some(record) => match record.label(dimension) {
                Some(label) => rest.push(label),
                None => rest,
            },
            None => rest,
        }
    }
}

/// The dates of the records that could be read, as they are shown, in the order of the
/// records.
pub open spec fn shot_dates(records: Seq<Option<ShotData>>) -> Seq<Seq<char>>
    decreases records.len(),
{
    if records.len() == 0 {
        Seq::empty()
    } else {
        let rest = shot_dates(records.drop_last());
        match records.last() {
            Some(record) => rest.push(normalized_date(record.date@)),
            None => rest,
        }
    }
}

/// Whether `summary` is what `records` come to: each table the tally of the labels that
/// the records give to its dimension, and the range the earliest and latest of their
/// dates.
pub open spec fn summarizes_shots(summary: CleanedShotData, records: Seq<Option<ShotData>>) -> bool {
    &&& forall|dimension: ShotDimension| #[trigger]
        summary.table(dimension) == tally(shot_labels(records, dimension))
    &&& summary.range() == (earliest_of(shot_dates(records)), latest_of(shot_dates(records)))
}

/// The labels that `records` give to `dimension`, in the order of the records. A record
/// that could not be read (`None`) gives none, and neither does a record without a value
/// for `dimension`.
pub open spec fn violence_labels(
    records: Seq<Option<ViolenceData>>,
    dimension: ViolenceDimension,
) -> Seq<Seq<char>>
    decreases records.len(),
{
    if records.len() == 0 {
        Seq::empty()
    } else {
        let rest = violence_labels(records.drop_last(), dimension);
        match records.last() {
            Some(record) => match record.label(dimension) {
                Some(label) => rest.push(label),
                None => rest,
            },
            None => rest,
        }
    }
}

/// The dates of the records that could be read, as they are shown, in the order of the
/// records.
pub open spec fn violence_dates(records: Seq<Option<ViolenceData>>) -> Seq<Seq<char>>
    decreases records.len(),
{
    if records.len() == 0 {
        Seq::empty()
    } else {
        let rest = violence_dates(records.drop_last());
        match records.last() {
            Some(record) => rest.push(normalized_date(record.date@)),
            None => rest,
        }
    }
}

/// Whether `summary` is what `records` come to: each table the tally of the labels that
/// the records give to its dimension, and the range the earliest and latest of their
/// dates.
pub open spec fn summarizes_violence(
    summary: CleanedViolenceData,
    records: Seq<Option<ViolenceData>>,
) -> bool {
    &&& forall|dimension: ViolenceDimension| #[trigger]
        summary.table(dimension) == tally(violence_labels(records, dimension))
    &&& summary.range() == (
        earliest_of(violence_dates(records)),
        latest_of(violence_dates(records)),
    )
}

/// No dimension gets more labels than there are records.
pub proof fn lemma_shot_labels_len(records: Seq<Option<ShotData>>, dimension: ShotDimension)
    ensures
        shot_labels(records, dimension).len() <= records.len(),
        shot_dates(records).len() <= records.len(),
    decreases records.len(),
{
    if records.len() > 0 {
        lemma_shot_labels_len(records.drop_last(), dimension);
    }
}

/// No dimension gets more labels than there are records.
pub proof fn lemma_violence_labels_len(
    records: Seq<Option<ViolenceData>>,
    dimension: ViolenceDimension,
)
    ensures
        violence_labels(records, dimension).len() <= records.len(),
        violence_dates(records).len() <= records.len(),
    decreases records.len(),
{
    if records.len() > 0 {
        lemma_violence_labels_len(records.drop_last(), dimension);
    }
}

/// In the summary of `records` the counts of a table add up to the number of records
/// that have a value for its dimension, which is at most the number of records; and the
/// count of a label is the number of records that carry it.
pub proof fn lemma_shot_table_sums(
    summary: CleanedShotData,
    records: Seq<Option<ShotData>>,
    dimension: ShotDimension,
)
    requires
        summarizes_shots(summary, records),
    ensures
        total(summary.table(dimension)) == shot_labels(records, dimension).len(),
        total(summary.table(dimension)) <= records.len(),
        forall|label: Seq<char>| #[trigger]
            count_of(summary.table(dimension), label) == shot_labels(
                records,
                dimension,
            ).to_multiset().count(label),
{
    lemma_tally(shot_labels(records, dimension));
    lemma_shot_labels_len(records, dimension);
}

/// In the summary of `records` the counts of a table add up to the number of records
/// that have a value for its dimension, which is at most the number of records; and the
/// count of a label is the number of records that carry it.
pub proof fn lemma_violence_table_sums(
    summary: CleanedViolenceData,
    records: Seq<Option<ViolenceData>>,
    dimension: ViolenceDimension,
)
    requires
        summarizes_violence(summary, records),
    ensures
        total(summary.table(dimension)) == violence_labels(records, dimension).len(),
        total(summary.table(dimension)) <= records.len(),
        forall|label: Seq<char>| #[trigger]
            count_of(summary.table(dimension), label) == violence_labels(
                records,
                dimension,
            ).to_multiset().count(label),
{
    lemma_tally(violence_labels(records, dimension));
    lemma_violence_labels_len(records, dimension);
}

/// The number of read records whose crime code is described as `UNKNOWN`.
pub open spec fn described_unknown(records: Seq<Option<ViolenceData>>) -> nat
    decreases records.len(),
{
    if records.len() == 0 {
        0
    } else {
        described_unknown(records.drop_last()) + match records.last() {
            Some(record) => if record.crime_label() == Some(UNKNOWN_CRIME@) {
                1nat
            } else {
                0nat
            },
            None => 0nat,
        }
    }
}

/// The number of read records whose crime code the table of codes does not hold.
pub open spec fn coded_outside_table(records: Seq<Option<ViolenceData>>) -> nat
    decreases records.len(),
{
    if records.len() == 0 {
        0
    } else {
        coded_outside_table(records.drop_last()) + match records.last() {
            Some(record) => match record.incident_iucr_cd {
                Some(code) => if is_known_code(code@) {
                    0nat
                } else {
                    1nat
                },
                None => 0nat,
            },
            None => 0nat,
        }
    }
}

/// In the summary of `records` the incident type `UNKNOWN` counts every read record
/// whose code is described so, and these are at least the records whose code the table
/// of codes does not hold: an unknown code is counted, and costs no record its place in
/// the other tables.
pub proof fn lemma_unknown_codes_are_counted(
    summary: CleanedViolenceData,
    records: Seq<Option<ViolenceData>>,
)
    requires
        summarizes_violence(summary, records),
    ensures
        count_of(summary.table(ViolenceDimension::IncidentTypes), UNKNOWN_CRIME@)
            == described_unknown(records),
        coded_outside_table(records) <= described_unknown(records),
{
    lemma_tally(violence_labels(records, ViolenceDimension::IncidentTypes));
    lemma_unknown_labels(records);
    assert(summary.table(ViolenceDimension::IncidentTypes) == tally(
        violence_labels(records, ViolenceDimension::IncidentTypes),
    ));
}

proof fn lemma_unknown_labels(records: Seq<Option<ViolenceData>>)
    ensures
        violence_labels(records, ViolenceDimension::IncidentTypes).to_multiset().count(
            UNKNOWN_CRIME@,
        ) == described_unknown(records),
        coded_outside_table(records) <= described_unknown(records),
    decreases records.len(),
{
    broadcast use vstd::multiset::group_multiset_axioms;

    let labels = violence_labels(records, ViolenceDimension::IncidentTypes);
    if records.len() == 0 {
        labels.to_multiset_ensures();
        assert(labels.to_multiset().len() == 0);
    } else {
        let rest = records.drop_last();
        lemma_unknown_labels(rest);
        if let Some(record) = records.last() {
            if let Some(code) = record.incident_iucr_cd {
                let label = crime_description(code@);
                vstd::seq_lib::to_multiset_build(
                    violence_labels(rest, ViolenceDimension::IncidentTypes),
                    label,
                );
                if !is_known_code(code@) {
                    lemma_unknown_code(code@);
                }
            }
        }
    }
}

/// Two summaries of the same records agree in every table and in the range of dates.
pub proof fn lemma_shot_summary_is_a_function(
    first: CleanedShotData,
    second: CleanedShotData,
    records: Seq<Option<ShotData>>,
)
    requires
        summarizes_shots(first, records),
        summarizes_shots(second, records),
    ensures
        forall|dimension: ShotDimension| #[trigger]
            first.table(dimension) == second.table(dimension),
        first.range() == second.range(),
{
}

/// Two summaries of the same records agree in every table and in the range of dates.
pub proof fn lemma_violence_summary_is_a_function(
    first: CleanedViolenceData,
    second: CleanedViolenceData,
    records: Seq<Option<ViolenceData>>,
)
    requires
        summarizes_violence(first, records),
        summarizes_violence(second, records),
    ensures
        forall|dimension: ViolenceDimension| #[trigger]
            first.table(dimension) == second.table(dimension),
        first.range() == second.range(),
{
}

/// Counts `label` in `table` where there is one.
fn count_label(table: &mut FrequencyTable, label: Option<&str>)
    requires
        total(old(table)@) < u64::MAX,
    ensures
        final(table)@ == match label {
            Some(text) => bump(old(table)@, text@),
            None => old(table)@,
        },
{
    proof {
        use_type_invariant(&*table);
    }
    match label {
        Some(text) => {
            proof {
                lemma_count_at_most_total(table@, text@);
            }
            table.insert_or_increment(text);
        },
        None => {},
    }
}

/// Borrows the text of a field that may be missing.
fn text_of(value: &Option<String>) -> (text: Option<&str>)
    ensures
        text is Some == *value is Some,
        text matches Some(t) ==> t@ == value->0@,
{
    match value {
        Some(v) => Some(v.as_str()),
        None => None,
    }
}

/// Summarises the gunfire alerts. `None` stands for a record that could not be read: it
/// counts nowhere.
pub fn clean_shot_data(records: &Vec<Option<ShotData>>) -> (summary: CleanedShotData)
    ensures
        summarizes_shots(summary, records@),
        range_holds(summary.range(), shot_dates(records@)),
{
    let mut summary = CleanedShotData::new();
    let mut dated = false;
    let mut i: usize = 0;
    assert(records@.take(0) =~= Seq::<Option<ShotData>>::empty());
    while i < records.len()
        invariant
            i <= records.len(),
            summarizes_shots(summary, records@.take(i as int)),
            dated == (shot_dates(records@.take(i as int)).len() > 0),
        decreases records.len() - i,
    {
        let ghost seen = records@.take(i as int);
        let ghost next = records@.take(i as int + 1);
        let ghost before = summary;
        proof {
            assert(next.drop_last() == seen);
            assert(next.last() == records@[i as int]);
            assert forall|dimension: ShotDimension|
                total(#[trigger] summary.table(dimension)) < u64::MAX by {
                lemma_tally(shot_labels(seen, dimension));
                lemma_shot_labels_len(seen, dimension);
            }
            assert(total(summary.table(ShotDimension::Blocks)) < u64::MAX);
            assert(total(summary.table(ShotDimension::CommunityAreas)) < u64::MAX);
            assert(total(summary.table(ShotDimension::IncidentTypes)) < u64::MAX);
            assert(total(summary.table(ShotDimension::Rounds)) < u64::MAX);
            assert(total(summary.table(ShotDimension::ZipCodes)) < u64::MAX);
        }
        match &records[i] {
            Some(record) => {
                let date = format_date(record.date.as_str());
                let (earliest, latest) = summary.time_range;
                let range = if dated {
                    Some((earliest, latest))
                } else {
                    None
                };
                summary.time_range = widen_range(range, date.as_str());
                dated = true;
                match &record.block {
                    Some(block) => {
                        let trimmed = trim_trailing(block.as_str(), ',');
                        count_label(&mut summary.sorted_blocks, Some(trimmed.as_str()));
                    },
                    None => {},
                }
                count_label(&mut summary.sorted_community_areas, text_of(&record.community_area));
                count_label(
                    &mut summary.sorted_incident_types,
                    text_of(&record.incident_type_description),
                );
                count_label(&mut summary.sorted_rounds, text_of(&record.rounds));
                count_label(&mut summary.sorted_zip_codes, text_of(&record.zip_code));
            },
            None => {},
        }
        proof {
            assert forall|dimension: ShotDimension| #[trigger]
                summary.table(dimension) == tally(shot_labels(next, dimension)) by {
                assert(before.table(dimension) == tally(shot_labels(seen, dimension)));
                if let Some(record) = records@[i as int] {
                    if let Some(label) = record.label(dimension) {
                        lemma_tally_push(shot_labels(seen, dimension), label);
                    }
                }
            }
            if let Some(record) = records@[i as int] {
                lemma_range_push(shot_dates(seen), normalized_date(record.date@));
            }
        }
        i += 1;
    }
    assert(records@.take(i as int) == records@);
    proof {
        lemma_range_holds_dates(shot_dates(records@));
    }
    summary
}

/// Summarises the victims. `None` stands for a record that could not be read: it counts
/// nowhere.
pub fn clean_violence_data(records: &Vec<Option<ViolenceData>>) -> (summary: CleanedViolenceData)
    ensures
        summarizes_violence(summary, records@),
        range_holds(summary.range(), violence_dates(records@)),
{
    let mut summary = CleanedViolenceData::new();
    let mut dated = false;
    let mut i: usize = 0;
    assert(records@.take(0) =~= Seq::<Option<ViolenceData>>::empty());
    while i < records.len()
        invariant
            i <= records.len(),
            summarizes_violence(summary, records@.take(i as int)),
            dated == (violence_dates(records@.take(i as int)).len() > 0),
        decreases records.len() - i,
    {
        let ghost seen = records@.take(i as int);
        let ghost next = records@.take(i as int + 1);
        let ghost before = summary;
        proof {
            assert(next.drop_last() == seen);
            assert(next.last() == records@[i as int]);
            assert forall|dimension: ViolenceDimension|
                total(#[trigger] summary.table(dimension)) < u64::MAX by {
                lemma_tally(violence_labels(seen, dimension));
                lemma_violence_labels_len(seen, dimension);
            }
            assert(total(summary.table(ViolenceDimension::Ages)) < u64::MAX);
            assert(total(summary.table(ViolenceDimension::CommunityAreas)) < u64::MAX);
            assert(total(summary.table(ViolenceDimension::GunInjuryCount)) < u64::MAX);
            assert(total(summary.table(ViolenceDimension::IncidentTypes)) < u64::MAX);
            assert(total(summary.table(ViolenceDimension::LocationDescriptions)) < u64::MAX);
            assert(total(summary.table(ViolenceDimension::VictimRaces)) < u64::MAX);
            assert(total(summary.table(ViolenceDimension::VictimSexes)) < u64::MAX);
            assert(total(summary.table(ViolenceDimension::ZipCodes)) < u64::MAX);
        }
        match &records[i] {
            Some(record) => {
                let date = format_date(record.date.as_str());
                let (earliest, latest) = summary.time_range;
                let range = if dated {
                    Some((earliest, latest))
                } else {
                    None
                };
                summary.time_range = widen_range(range, date.as_str());
                dated = true;
                count_label(&mut summary.sorted_ages, text_of(&record.age));
                count_label(&mut summary.sorted_community_areas, text_of(&record.community_area));
                count_label(
                    &mut summary.sorted_gun_injury_count,
                    text_of(&record.gunshot_injury_i),
                );
                match &record.incident_iucr_cd {
                    Some(_) => {
                        let description = record.get_crime_description();
                        count_label(&mut summary.sorted_incident_types, Some(description.as_str()));
                    },
                    None => {},
                }
                count_label(
                    &mut summary.sorted_location_descriptions,
                    text_of(&record.location_description),
                );
                count_label(&mut summary.sorted_victim_races, text_of(&record.race));
                count_label(&mut summary.sorted_victim_sexes, text_of(&record.sex));
                count_label(&mut summary.sorted_zip_codes, text_of(&record.zip_code));
            },
            None => {},
        }
        proof {
            assert forall|dimension: ViolenceDimension| #[trigger]
                summary.table(dimension) == tally(violence_labels(next, dimension)) by {
                assert(before.table(dimension) == tally(violence_labels(seen, dimension)));
                if let Some(record) = records@[i as int] {
                    if let Some(label) = record.label(dimension) {
                        lemma_tally_push(violence_labels(seen, dimension), label);
                    }
                }
            }
            if let Some(record) = records@[i as int] {
                lemma_range_push(violence_dates(seen), normalized_date(record.date@));
            }
        }
        i += 1;
    }
    assert(records@.take(i as int) == records@);
    proof {
        lemma_range_holds_dates(violence_dates(records@));
    }
    summary
}

} // verus!
