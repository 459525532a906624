//! The markers that stand for the incidents on the map.

use crate::frontend::chicago::{ShotData, ViolenceData};
use crate::frontend::popup::{field_text, text_or_empty, MULTIPLE_GUNSHOTS};
use crate::text::{lowercased, same_text, to_lowercase};
use vstd::prelude::*;
use vstd::string::*;

verus! {

/// The kind of alert that may have been a firecracker.
pub const GUNSHOT_OR_FIRECRACKER: &'static str = "gunshot or firecracker";

/// The icon of an alert that may have been a firecracker.
pub const GUNSHOT_OR_FIRECRACKER_ICON: &'static str = "https://i.imgur.com/UalxwUV.png";

/// The icon of an alert of a single shot.
pub const SINGLE_SHOTSPOTTER_MARKER_ICON: &'static str = "https://i.imgur.com/muz4yax.png";

/// The icon of an alert of several shots.
pub const MULTIPLE_SHOTSPOTTER_MARKER_ICON: &'static str = "https://i.imgur.com/3auFaRW.png";

/// The icon of a victim.
pub const VIOLENCE_MARKER_ICON: &'static str = "https://i.imgur.com/5TV33u5.png";

/// What stands in for the icon of an alert that may have been a firecracker.
pub const FIRECRACKER_ALT: &'static str = "\u{1f9e8}";

/// What stands in for the icon of a gunfire alert.
pub const GUN_ALT: &'static str = "\u{1f52b}";

/// What stands in for the icon of a victim.
pub const VIOLENCE_ALT: &'static str = "\u{1f92c}";

/// The title of the marker of a victim.
pub const VIOLENCE_TITLE: &'static str = "violence";

/// A marker on the map.
#[derive(Debug)]
pub struct MapMarker {
    /// What stands in for the icon where it cannot be shown.
    pub alt: String,
    /// The link to the icon.
    pub icon_url: String,
    /// The latitude, as the bit pattern of its IEEE 754 double.
    pub latitude: u64,
    /// The longitude, as the bit pattern of its IEEE 754 double.
    pub longitude: u64,
    /// The title of the marker.
    pub title: String,
}

/// The icon of a gunfire alert of the kind `lowered`, which is the kind in lower case.
pub open spec fn shot_icon(lowered: Seq<char>) -> Seq<char> {
    if lowered == MULTIPLE_GUNSHOTS@ {
        MULTIPLE_SHOTSPOTTER_MARKER_ICON@
    } else if lowered == GUNSHOT_OR_FIRECRACKER@ {
        GUNSHOT_OR_FIRECRACKER_ICON@
    } else {
        SINGLE_SHOTSPOTTER_MARKER_ICON@
    }
}

/// What stands in for the icon of a gunfire alert of the kind `lowered`.
pub open spec fn shot_alt(lowered: Seq<char>) -> Seq<char> {
    if lowered == GUNSHOT_OR_FIRECRACKER@ {
        FIRECRACKER_ALT@
    } else {
        GUN_ALT@
    }
}

/// Whether `marker` is the marker of a gunfire alert of the kind `lowered` at `point`,
/// which is longitude, then latitude.
pub open spec fn is_shot_marker(marker: MapMarker, lowered: Seq<char>, point: (u64, u64)) -> bool {
    &&& marker.alt@ == shot_alt(lowered)
    &&& marker.icon_url@ == shot_icon(lowered)
    &&& marker.longitude == point.0
    &&& marker.latitude == point.1
    &&& marker.title@ == lowered
}

/// The marker of a gunfire alert of the kind `lowered`, which is the kind in lower case,
/// at `point`, which is longitude, then latitude.
pub fn shot_marker_at(lowered: String, point: (u64, u64)) -> (marker: MapMarker)
    ensures
        is_shot_marker(marker, lowered@, point),
{
    let icon_url = if same_text(lowered.as_str(), MULTIPLE_GUNSHOTS) {
        MULTIPLE_SHOTSPOTTER_MARKER_ICON
    } else if same_text(lowered.as_str(), GUNSHOT_OR_FIRECRACKER) {
        GUNSHOT_OR_FIRECRACKER_ICON
    } else {
        SINGLE_SHOTSPOTTER_MARKER_ICON
    };
    let alt = if same_text(lowered.as_str(), GUNSHOT_OR_FIRECRACKER) {
        FIRECRACKER_ALT
    } else {
        GUN_ALT
    };
    MapMarker {
        alt: alt.to_owned(),
        icon_url: icon_url.to_owned(),
        latitude: point.1,
        longitude: point.0,
        title: lowered,
    }
}

/// The marker of a gunfire alert: none for an alert without coordinates.
pub fn shot_marker(record: &ShotData) -> (marker: Option<MapMarker>)
    ensures
        match record.location.spot() {
            Some(point) => marker matches Some(made) && is_shot_marker(
                made,
                lowercased(text_or_empty(record.incident_type_description)),
                point,
            ),
            None => marker is None,
        },
{
    match record.location.point() {
        Some(point) => {
            let lowered = to_lowercase(field_text(&record.incident_type_description));
            Some(shot_marker_at(lowered, point))
        },
        None => None,
    }
}

/// The marker of a victim: none for a record without coordinates.
pub fn violence_marker(record: &ViolenceData) -> (marker: Option<MapMarker>)
    ensures
        match record.location.spot() {
            Some(point) => marker matches Some(made) && made.alt@ == VIOLENCE_ALT@
                && made.icon_url@ == VIOLENCE_MARKER_ICON@ && made.longitude == point.0
                && made.latitude == point.1 && made.title@ == VIOLENCE_TITLE@,
            None => marker is None,
        },
{
    match record.location.point() {
        Some(point) => Some(
            MapMarker {
                alt: VIOLENCE_ALT.to_owned(),
                icon_url: VIOLENCE_MARKER_ICON.to_owned(),
                latitude: point.1,
                longitude: point.0,
                title: VIOLENCE_TITLE.to_owned(),
            },
        ),
        None => None,
    }
}

} // verus!
