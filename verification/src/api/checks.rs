//! The check, made at start, that the environment holds what the server needs.

use crate::api::environment::NOT_PRESENT;
use crate::api::errors::StaccError;
use crate::text::same_text;
use vstd::prelude::*;
use vstd::string::*;

verus! {

/// The number of variables without which the server does not start.
pub const REQUIRED_COUNT: usize = 8;

/// The names of the variables without which the server does not start.
pub const ENVIRONMENT_VARIABLES: [&'static str; 8] = [
    "MONGO_PASSWORD",
    "MONGO_URI",
    "MONGO_USER",
    "STACC_BACKGROUNDS_COLLECTION_NAME",
    "STACC_DATABASE",
    "STACC_DOMAIN",
    "STACC_POSTS_COLLECTION_NAME",
    "STACC_VISITORS_COLLECTION_NAME",
];

/// Whether `name` is among `loaded`.
pub open spec fn is_loaded(loaded: Seq<String>, name: Seq<char>) -> bool {
    exists|i: int| 0 <= i < loaded.len() && (#[trigger] loaded[i])@ == name
}

/// The first `upto` required names that are not among `loaded`, in their order.
pub open spec fn missing_among(loaded: Seq<String>, upto: int) -> Seq<Seq<char>>
    decreases upto,
{
    if upto <= 0 {
        Seq::empty()
    } else {
        let rest = missing_among(loaded, upto - 1);
        let name = ENVIRONMENT_VARIABLES@[upto - 1]@;
        if is_loaded(loaded, name) {
            rest
        } else {
            rest.push(name)
        }
    }
}

/// The required names that are not among `loaded`, in their order.
pub open spec fn missing(loaded: Seq<String>) -> Seq<Seq<char>> {
    missing_among(loaded, ENVIRONMENT_VARIABLES@.len() as int)
}

/// The texts of a list of strings.
pub open spec fn texts(names: Seq<String>) -> Seq<Seq<char>> {
    names.map_values(|name: String| name@)
}

/// Whether `name` is among `loaded`.
pub fn contains_name(loaded: &Vec<String>, name: &str) -> (found: bool)
    ensures
        found == is_loaded(loaded@, name@),
{
    let mut i: usize = 0;
    while i < loaded.len()
        invariant
            i <= loaded.len(),
            forall|j: int| 0 <= j < i ==> (#[trigger] loaded@[j])@ != name@,
        decreases loaded.len() - i,
    {
        if same_text(loaded[i].as_str(), name) {
            return true;
        }
        i += 1;
    }
    false
}

/// The required variables that the environment lacks, given the names that it holds.
pub fn missing_variables(loaded: &Vec<String>) -> (absent: Vec<String>)
    ensures
        texts(absent@) == missing(loaded@),
{
    let mut absent: Vec<String> = Vec::new();
    let mut i: usize = 0;
    assert(texts(absent@) =~= missing_among(loaded@, 0));
    while i < REQUIRED_COUNT
        invariant
            i <= REQUIRED_COUNT,
            ENVIRONMENT_VARIABLES@.len() == REQUIRED_COUNT,
            texts(absent@) == missing_among(loaded@, i as int),
        decreases REQUIRED_COUNT - i,
    {
        let name = ENVIRONMENT_VARIABLES[i];
        if !contains_name(loaded, name) {
            let ghost before = texts(absent@);
            absent.push(name.to_owned());
            assert(texts(absent@) =~= before.push(name@));
        }
        i += 1;
    }
    absent
}

/// Passes where the environment holds every required variable, and fails where one is
/// missing.
pub fn run_environment_checks(loaded: &Vec<String>) -> (outcome: Result<(), StaccError>)
    ensures
        outcome is Ok <==> missing(loaded@).len() == 0,
        outcome matches Err(error) ==> error matches StaccError::Environment(why) && why@
            == NOT_PRESENT@,
{
    let absent = missing_variables(loaded);
    if absent.len() == 0 {
        Ok(())
    } else {
        Err(StaccError::Environment(NOT_PRESENT.to_owned()))
    }
}

} // verus!
