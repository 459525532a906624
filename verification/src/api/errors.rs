//! The failures that the server reports, and how each is told to the client.

use crate::api::data::Response;
use crate::text::followed_by;
use vstd::prelude::*;
use vstd::string::*;

verus! {

/// A failure that a route answers with.
#[derive(Debug)]
pub enum StaccResponseError {
    /// The Chicago data could not be had.
    ChicagoAPIError { error: String },
    /// The document store failed.
    MongoDBError { error: String },
    /// The document store holds no such document.
    MongoDBSearchError { error: String },
}

/// A failure beneath the routes. Each holds the text of what went wrong.
#[derive(Debug)]
pub enum StaccError {
    /// A variable of the environment could not be read.
    Environment(String),
    /// The document store failed.
    MongoDB(String),
    /// A request to another service failed.
    Reqwest(String),
    /// A text was not the JSON it should have been.
    SerdeJSONError(String),
}

impl StaccResponseError {
    /// The message of the failure: what kind it is, then its text.
    pub open spec fn message_text(&self) -> Seq<char> {
        match self {
            StaccResponseError::ChicagoAPIError { error } => "Chicago API error: "@ + error@,
            StaccResponseError::MongoDBError { error } => "MongoDB error: "@ + error@,
            StaccResponseError::MongoDBSearchError { error } => "MongoDB search error: "@ + error@,
        }
    }

    /// The HTTP status of the failure: 404 for a document that is not there, 500 else.
    pub open spec fn status(&self) -> u16 {
        match self {
            StaccResponseError::ChicagoAPIError { .. } => 500,
            StaccResponseError::MongoDBError { .. } => 500,
            StaccResponseError::MongoDBSearchError { .. } => 404,
        }
    }

    /// The message of the failure.
    pub fn message(&self) -> (text: String)
        ensures
            text@ == self.message_text(),
    {
        match self {
            StaccResponseError::ChicagoAPIError { error } => followed_by(
                "Chicago API error: ",
                error.as_str(),
            ),
            StaccResponseError::MongoDBError { error } => followed_by("MongoDB error: ", error.as_str()),
            StaccResponseError::MongoDBSearchError { error } => followed_by(
                "MongoDB search error: ",
                error.as_str(),
            ),
        }
    }

    /// The HTTP status code of the failure.
    pub fn status_code(&self) -> (code: u16)
        ensures
            code == self.status(),
    {
        match self {
            StaccResponseError::ChicagoAPIError { .. } => 500,
            StaccResponseError::MongoDBError { .. } => 500,
            StaccResponseError::MongoDBSearchError { .. } => 404,
        }
    }

    /// The body with which the failure is answered: its message, and its status code as on
    /// the status line.
    pub fn error_response(&self) -> (body: Response)
        ensures
            body.message@ == self.message_text(),
            body.status_code == self.status(),
    {
        Response { message: self.message(), status_code: self.status_code() }
    }
}

impl StaccError {
    /// The message of the failure: what kind it is, then its text.
    pub open spec fn message_text(&self) -> Seq<char> {
        match self {
            StaccError::Environment(text) => "Environment error: "@ + text@,
            StaccError::MongoDB(text) => "MongoDB error: "@ + text@,
            StaccError::Reqwest(text) => "Reqwest error: "@ + text@,
            StaccError::SerdeJSONError(text) => "Serde JSON error: "@ + text@,
        }
    }

    /// The message of the failure.
    pub fn message(&self) -> (text: String)
        ensures
            text@ == self.message_text(),
    {
        match self {
            StaccError::Environment(text) => followed_by("Environment error: ", text.as_str()),
            StaccError::MongoDB(text) => followed_by("MongoDB error: ", text.as_str()),
            StaccError::Reqwest(text) => followed_by("Reqwest error: ", text.as_str()),
            StaccError::SerdeJSONError(text) => followed_by("Serde JSON error: ", text.as_str()),
        }
    }
}

} // verus!
