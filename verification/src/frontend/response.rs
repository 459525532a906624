//! The message that the server sends where it cannot send what was asked for.

use vstd::prelude::*;
use vstd::string::*;

verus! {

/// A message with its status code.
#[derive(Debug, PartialEq, Eq)]
pub struct Response {
    /// What happened.
    pub message: String,
    /// The HTTP status code.
    pub status_code: u16,
}

impl Clone for Response {
    fn clone(&self) -> (copy: Self)
        ensures
            copy == *self,
    {
        Response { message: self.message.clone(), status_code: self.status_code }
    }
}

impl Default for Response {
    /// The message of a failure of which nothing is known: `UNKNOWN`, with status 500.
    fn default() -> (response: Self)
        ensures
            response.message@ == "UNKNOWN"@,
            response.status_code == 500,
    {
        Self { message: "UNKNOWN".to_owned(), status_code: 500 }
    }
}

impl Response {
    /// The message of a failure on the server's side: `message`, with status 500.
    pub fn status_500_with_message(message: String) -> (response: Self)
        ensures
            response.message == message,
            response.status_code == 500,
    {
        Self { message, status_code: 500 }
    }
}

} // verus!
