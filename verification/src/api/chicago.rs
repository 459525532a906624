//! The two Chicago data sets as they come from the data portal: JSON, read but not yet
//! looked into.

use crate::api::errors::StaccError;
use serde_json::Value;
use vstd::prelude::*;
use vstd::string::*;

verus! {

#[verifier::external_type_specification]
#[verifier::external_body]
pub struct ExValue(serde_json::Value);

#[verifier::external_type_specification]
#[verifier::external_body]
pub struct ExJsonError(serde_json::Error);

/// Whether serde_json reads `text` as a JSON value.
pub uninterp spec fn is_json(text: Seq<char>) -> bool;

/// The value that serde_json reads from `text`, where it reads one.
pub uninterp spec fn json_value(text: Seq<char>) -> Value;

/// The gunfire alerts and the victims of homicides and non-fatal shootings.
#[derive(Debug)]
pub struct ChicagoMapData {
    /// What the portal gave for the gunfire alerts.
    pub shotspotter_data: Value,
    /// What the portal gave for the victims.
    pub violence_data: Value,
}

/// Calls serde_json's `from_str` for a `Value`.
///
/// Trusted: whether the text is read, and the value that is read from it, depend on the
/// text alone.
#[verifier::external_body]
fn json_from_str(text: &str) -> (parsed: Result<Value, serde_json::Error>)
    ensures
        parsed is Ok == is_json(text@),
        parsed matches Ok(value) ==> value == json_value(text@),
{
    serde_json::from_str::<Value>(text)
}

/// Calls `to_string` on a `serde_json::Error`.
///
/// Trusted: nothing.
#[verifier::external_body]
fn json_error_text(error: &serde_json::Error) -> (text: String) {
    error.to_string()
}

/// The data set that a reading came to: the value that was read, or the failure to read.
pub fn data_set_from(parsed: Result<Value, serde_json::Error>) -> (data: Result<Value, StaccError>)
    ensures
        match parsed {
            Ok(value) => data == Ok::<Value, StaccError>(value),
            Err(_) => data matches Err(StaccError::SerdeJSONError(_)),
        },
{
    match parsed {
        Ok(value) => Ok(value),
        Err(error) => Err(StaccError::SerdeJSONError(json_error_text(&error))),
    }
}

/// Reads one data set from the text of the portal's answer: the value that the text
/// holds, as it is, or the failure to read it.
pub fn parse_data_set(text: &str) -> (data: Result<Value, StaccError>)
    ensures
        data is Ok == is_json(text@),
        data matches Ok(value) ==> value == json_value(text@),
        data matches Err(error) ==> error is SerdeJSONError,
{
    data_set_from(json_from_str(text))
}

/// Reads both data sets, the victims first: where both texts are JSON, the value of each
/// in its own field, as it was read; else the failure to read the first that is not.
pub fn get_vhnfs_shotspotter_data(violence_text: &str, shotspotter_text: &str) -> (data: Result<
    ChicagoMapData,
    StaccError,
>)
    ensures
        data is Ok == (is_json(violence_text@) && is_json(shotspotter_text@)),
        data matches Ok(both) ==> both.violence_data == json_value(violence_text@)
            && both.shotspotter_data == json_value(shotspotter_text@),
        data matches Err(error) ==> error is SerdeJSONError,
{
    let violence_data = match parse_data_set(violence_text) {
        Ok(value) => value,
        Err(error) => {
            return Err(error);
        },
    };
    let shotspotter_data = match parse_data_set(shotspotter_text) {
        Ok(value) => value,
        Err(error) => {
            return Err(error);
        },
    };
    Ok(ChicagoMapData { shotspotter_data, violence_data })
}

} // verus!
