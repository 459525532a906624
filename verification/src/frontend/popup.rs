//! What the popup of a map marker says about an incident.

use crate::digest::{hex_of, sha256_digest, sha256_hex};
use crate::frontend::chicago::{ShotData, ViolenceData};
use crate::frontend::crime_codes::{crime_description, UNKNOWN_CRIME};
use crate::frontend::date::{format_date, normalized_date};
use crate::text::{followed_by, lowercased, same_text, to_lowercase, trim_trailing, without_trailing};
use vstd::prelude::*;
use vstd::string::*;
use vstd::utf8::encode_utf8;

verus! {

/// The kind of alert under which the number of rounds is shown.
pub const MULTIPLE_GUNSHOTS: &'static str = "multiple gunshots";

/// The text of a field, and nothing for a field that is missing.
pub open spec fn text_or_empty(value: Option<String>) -> Seq<char> {
    match value {
        Some(text) => text@,
        None => Seq::empty(),
    }
}

/// The texts of a list of rows.
pub open spec fn rows_view(rows: Seq<(String, String)>) -> Seq<(Seq<char>, Seq<char>)> {
    rows.map_values(|row: (String, String)| (row.0@, row.1@))
}

/// The identifier of the popup that belongs to the incident with the digest `hash`.
pub open spec fn popup_id(hash: Seq<char>) -> Seq<char> {
    "shot-data-"@ + hash + "-popup"@
}

/// The line under the header: when and where.
pub open spec fn subtitle_text(
    timestamp: Seq<char>,
    community_area: Seq<char>,
    zip_code: Seq<char>,
) -> Seq<char> {
    timestamp + " | "@ + community_area + " "@ + zip_code
}

/// The cell that names a row: the title in bold.
pub open spec fn title_cell(row_title: Seq<char>) -> Seq<char> {
    "<b>"@ + row_title + "</b>"@
}

/// What a popup holds.
#[derive(Debug)]
pub struct PopupContent {
    /// The identifier of the popup's element.
    pub id: String,
    /// The header.
    pub header: String,
    /// The line under the header.
    pub subtitle: String,
    /// The rows of the table, each a title cell and a value.
    pub rows: Vec<(String, String)>,
}

/// The text of a field, and nothing for a field that is missing.
pub fn field_text(value: &Option<String>) -> (text: &str)
    ensures
        text@ == text_or_empty(*value),
{
    match value {
        Some(text) => text.as_str(),
        None => {
            proof {
                reveal_strlit("");
            }
            ""
        },
    }
}

/// The identifier of the popup that belongs to the incident with the digest `hash`.
pub fn popup_element_id(hash: &str) -> (id: String)
    ensures
        id@ == popup_id(hash@),
{
    let mut id = followed_by("shot-data-", hash);
    id.append("-popup");
    id
}

/// The line under the header: when and where.
pub fn subtitle(timestamp: &str, community_area: &str, zip_code: &str) -> (line: String)
    ensures
        line@ == subtitle_text(timestamp@, community_area@, zip_code@),
{
    let mut line = followed_by(timestamp, " | ");
    line.append(community_area);
    line.append(" ");
    line.append(zip_code);
    line
}

/// An incident that can be shown in a popup.
pub trait Popup {
    /// The header of the popup.
    spec fn header(&self) -> Seq<char>;

    /// The community area of the incident.
    spec fn area(&self) -> Seq<char>;

    /// The zip code of the incident.
    spec fn zip(&self) -> Seq<char>;

    /// The date of the incident as the source wrote it.
    spec fn raw_date(&self) -> Seq<char>;

    /// The rows of the table, each a title and a value.
    spec fn info(&self) -> Seq<(Seq<char>, Seq<char>)>;

    /// The text of which the digest is taken: the fields of the incident one after the
    /// other, with `location` in the place of the location.
    spec fn hash_input(&self, location: Seq<char>) -> Seq<char>;

    /// The header of the popup.
    fn create_popup_header(&self) -> (header: String)
        ensures
            header@ == self.header(),
    ;

    /// The line under the header: the date as it is shown, the community area and the zip
    /// code.
    fn create_metadata_subtitle(&self, timestamp: &str) -> (line: String)
        ensures
            line@ == subtitle_text(timestamp@, self.area(), self.zip()),
    ;

    /// The rows of the table, each as its title cell and its value.
    fn create_info_table(&self) -> (rows: Vec<(String, String)>)
        ensures
            rows@.len() == self.info().len(),
            forall|i: int|
                0 <= i < rows@.len() ==> (#[trigger] rows@[i]).0@ == title_cell(self.info()[i].0)
                    && rows@[i].1@ == self.info()[i].1,
    ;

    /// One row of the table: the title in bold, and the value.
    fn build_table_row(&self, row_title: &str, row_value: &str) -> (row: (String, String))
        ensures
            row.0@ == title_cell(row_title@),
            row.1@ == row_value@,
    {
        let mut title = followed_by("<b>", row_title);
        title.append("</b>");
        (title, row_value.to_owned())
    }

    /// The identifier of the incident: the SHA-256 digest of its fields, in hexadecimal.
    /// `location` is the location as it is written out for the digest.
    fn generate_id(&self, location: &str) -> (id: String)
        ensures
            id@ == hex_of(sha256_digest(encode_utf8(self.hash_input(location@)))),
            id@.len() == 64,
    ;

    /// The date of the incident as it is shown.
    fn format_date(&self) -> (shown: String)
        ensures
            shown@ == normalized_date(self.raw_date()),
    ;

    /// All that the popup holds.
    fn into_popup(&self, location: &str) -> (content: PopupContent)
        ensures
            content.id@ == popup_id(
                hex_of(sha256_digest(encode_utf8(self.hash_input(location@)))),
            ),
            content.header@ == self.header(),
            content.subtitle@ == subtitle_text(
                normalized_date(self.raw_date()),
                self.area(),
                self.zip(),
            ),
            content.rows@.len() == self.info().len(),
            forall|i: int|
                0 <= i < content.rows@.len() ==> (#[trigger] content.rows@[i]).0@ == title_cell(
                    self.info()[i].0,
                ) && content.rows@[i].1@ == self.info()[i].1,
    {
        let hash = self.generate_id(location);
        let timestamp = self.format_date();
        PopupContent {
            id: popup_element_id(hash.as_str()),
            header: self.create_popup_header(),
            subtitle: self.create_metadata_subtitle(timestamp.as_str()),
            rows: self.create_info_table(),
        }
    }
}

/// Whether the number of rounds is shown for an alert of the kind `lowered`, which is
/// the kind in lower case.
pub fn shows_rounds(lowered: &str) -> (shown: bool)
    ensures
        shown == (lowered@ == MULTIPLE_GUNSHOTS@),
{
    same_text(lowered, MULTIPLE_GUNSHOTS)
}

impl Popup for ShotData {
    open spec fn header(&self) -> Seq<char> {
        text_or_empty(self.incident_type_description)
    }

    open spec fn area(&self) -> Seq<char> {
        text_or_empty(self.community_area)
    }

    open spec fn zip(&self) -> Seq<char> {
        text_or_empty(self.zip_code)
    }

    open spec fn raw_date(&self) -> Seq<char> {
        self.date@
    }

    open spec fn info(&self) -> Seq<(Seq<char>, Seq<char>)> {
        let block = ("Block"@, without_trailing(text_or_empty(self.block), ','));
        if lowercased(text_or_empty(self.incident_type_description)) == MULTIPLE_GUNSHOTS@ {
            seq![block, ("Rounds"@, text_or_empty(self.rounds))]
        } else {
            seq![block]
        }
    }

    open spec fn hash_input(&self, location: Seq<char>) -> Seq<char> {
        text_or_empty(self.block) + text_or_empty(self.community_area) + self.date@
            + text_or_empty(self.incident_type_description) + location + text_or_empty(
            self.rounds,
        ) + text_or_empty(self.zip_code)
    }

    fn create_popup_header(&self) -> (header: String) {
        field_text(&self.incident_type_description).to_owned()
    }

    fn create_metadata_subtitle(&self, timestamp: &str) -> (line: String) {
        subtitle(timestamp, field_text(&self.community_area), field_text(&self.zip_code))
    }

    fn create_info_table(&self) -> (rows: Vec<(String, String)>) {
        let mut rows: Vec<(String, String)> = Vec::new();
        let block = trim_trailing(field_text(&self.block), ',');
        rows.push(self.build_table_row("Block", block.as_str()));
        let lowered = to_lowercase(field_text(&self.incident_type_description));
        if shows_rounds(lowered.as_str()) {
            rows.push(self.build_table_row("Rounds", field_text(&self.rounds)));
        }
        rows
    }

    fn generate_id(&self, location: &str) -> (id: String) {
        let mut input = field_text(&self.block).to_owned();
        input.append(field_text(&self.community_area));
        input.append(self.date.as_str());
        input.append(field_text(&self.incident_type_description));
        input.append(location);
        input.append(field_text(&self.rounds));
        input.append(field_text(&self.zip_code));
        sha256_hex(input.as_str())
    }

    fn format_date(&self) -> (shown: String) {
        format_date(self.date.as_str())
    }
}

impl Popup for ViolenceData {
    open spec fn header(&self) -> Seq<char> {
        match self.incident_iucr_cd {
            Some(code) => crime_description(code@),
            None => UNKNOWN_CRIME@,
        }
    }

    open spec fn area(&self) -> Seq<char> {
        text_or_empty(self.community_area)
    }

    open spec fn zip(&self) -> Seq<char> {
        text_or_empty(self.zip_code)
    }

    open spec fn raw_date(&self) -> Seq<char> {
        self.date@
    }

    open spec fn info(&self) -> Seq<(Seq<char>, Seq<char>)> {
        seq![
            ("Gunshot injury?"@, text_or_empty(self.gunshot_injury_i)),
            ("Location"@, text_or_empty(self.location_description)),
            ("Victim race"@, text_or_empty(self.race)),
            ("Victim age"@, text_or_empty(self.age)),
            ("Victim sex"@, text_or_empty(self.sex)),
        ]
    }

    open spec fn hash_input(&self, location: Seq<char>) -> Seq<char> {
        text_or_empty(self.age) + text_or_empty(self.community_area) + self.date@ + text_or_empty(
            self.gunshot_injury_i,
        ) + text_or_empty(self.incident_iucr_cd) + self.incident_primary@ + location
            + text_or_empty(self.location_description) + text_or_empty(self.race) + text_or_empty(
            self.sex,
        ) + self.victimization_fbi_cd@ + self.victimization_fbi_descr@ + text_or_empty(
            self.zip_code,
        )
    }

    fn create_popup_header(&self) -> (header: String) {
        self.get_crime_description()
    }

    fn create_metadata_subtitle(&self, timestamp: &str) -> (line: String) {
        subtitle(timestamp, field_text(&self.community_area), field_text(&self.zip_code))
    }

    fn create_info_table(&self) -> (rows: Vec<(String, String)>) {
        let mut rows: Vec<(String, String)> = Vec::new();
        rows.push(self.build_table_row("Gunshot injury?", field_text(&self.gunshot_injury_i)));
        rows.push(self.build_table_row("Location", field_text(&self.location_description)));
        rows.push(self.build_table_row("Victim race", field_text(&self.race)));
        rows.push(self.build_table_row("Victim age", field_text(&self.age)));
        rows.push(self.build_table_row("Victim sex", field_text(&self.sex)));
        rows
    }

    fn generate_id(&self, location: &str) -> (id: String) {
        let mut input = field_text(&self.age).to_owned();
        input.append(field_text(&self.community_area));
        input.append(self.date.as_str());
        input.append(field_text(&self.gunshot_injury_i));
        input.append(field_text(&self.incident_iucr_cd));
        input.append(self.incident_primary.as_str());
        input.append(location);
        input.append(field_text(&self.location_description));
        input.append(field_text(&self.race));
        input.append(field_text(&self.sex));
        input.append(self.victimization_fbi_cd.as_str());
        input.append(self.victimization_fbi_descr.as_str());
        input.append(field_text(&self.zip_code));
        sha256_hex(input.as_str())
    }

    fn format_date(&self) -> (shown: String) {
        format_date(self.date.as_str())
    }
}

} // verus!
