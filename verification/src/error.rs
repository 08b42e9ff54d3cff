//! How a request is refused.

use serde_json::Value;
use vstd::prelude::*;

use crate::outside::{json_object, json_object_text, json_strings, json_text, members_of};

verus! {

/// Why a request is refused.
#[derive(Debug)]
pub enum ApiError {
    /// The credentials are missing, malformed or not known.
    Unauthorized,
    /// The event breaks a rule, and this is what is said of it.
    BadRequest(String),
    /// The project registry or the broker cannot be reached.
    Unavailable,
}

/// The answer to a refused request: an HTTP status and the text of the error.
#[derive(Debug)]
pub struct ErrorResponse {
    pub status: u16,
    pub error: String,
}

impl ErrorResponse {
    /// The JSON object that the answer carries: the text of the error, under
    /// `error`.
    pub fn body(&self) -> (body: Value)
        ensures
            json_strings(body) == map!["error"@ => self.error@],
            json_text(body) == json_object_text(map!["error"@ => self.error@]),
    {
        let mut pairs: Vec<(String, String)> = Vec::new();
        pairs.push(("error".to_owned(), self.error.clone()));
        proof {
            reveal_with_fuel(members_of, 2);
            assert(members_of(pairs@) =~= map!["error"@ => self.error@]);
        }
        json_object(pairs)
    }
}

impl ApiError {
    /// The HTTP status that a refusal is answered with.
    pub open spec fn status(self) -> u16 {
        match self {
            ApiError::Unauthorized => 401,
            ApiError::BadRequest(_) => 400,
            ApiError::Unavailable => 503,
        }
    }

    /// The text that a refusal is answered with.
    pub open spec fn message(self) -> Seq<char> {
        match self {
            ApiError::Unauthorized => "missing or invalid project credentials"@,
            ApiError::BadRequest(reason) => "invalid event: "@ + reason@,
            ApiError::Unavailable => "event pipeline is temporarily unavailable"@,
        }
    }

    /// The text of the error.
    pub fn to_string(&self) -> (text: String)
        ensures
            text@ == self.message(),
    {
        match self {
            ApiError::Unauthorized => "missing or invalid project credentials".to_owned(),
            ApiError::BadRequest(reason) => {
                let mut text = "invalid event: ".to_owned();
                text.append(reason.as_str());
                text
            },
            ApiError::Unavailable => "event pipeline is temporarily unavailable".to_owned(),
        }
    }

    /// The answer to a request refused with this error.
    pub fn into_response(self) -> (response: ErrorResponse)
        ensures
            response.status == self.status(),
            response.error@ == self.message(),
    {
        let status: u16 = match self {
            ApiError::Unauthorized => 401,
            ApiError::BadRequest(_) => 400,
            ApiError::Unavailable => 503,
        };
        ErrorResponse { status, error: self.to_string() }
    }
}

} // verus!
