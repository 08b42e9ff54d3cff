//! Who a request comes from.

use axum::http::HeaderMap;
use vstd::prelude::*;
use vstd::utf8::decode_utf8;

use crate::domain::event::ProjectIdentity;
use crate::error::ApiError;
use crate::outside::{first_header, header_entries, is_header_text};

verus! {

/// The credentials of a request, with which its project is looked up.
#[derive(Debug)]
pub struct Credentials {
    pub client_id: String,
    pub client_secret: String,
}

/// What the project registry says of a pair of credentials.
#[derive(Debug)]
pub enum ProjectLookup {
    /// They belong to this active project.
    Found(ProjectIdentity),
    /// They belong to no active project.
    NotFound,
    /// The registry could not be asked.
    Failed,
}

/// The text of the first header under a name, where there is one and it is text
/// of at least one character.
pub open spec fn header_text(headers: HeaderMap, name: Seq<char>) -> Option<Seq<char>> {
    if header_entries(headers).contains_key(name) {
        let bytes = header_entries(headers)[name][0];
        if is_header_text(bytes) && bytes.len() > 0 {
            Some(decode_utf8(bytes))
        } else {
            None
        }
    } else {
        None
    }
}

/// Reads a header that a request must carry. The name is given in lower case.
pub fn header_value<'a>(headers: &'a HeaderMap, name: &str) -> (value: Result<&'a str, ApiError>)
    requires
        forall|i: int| 0 <= i < name@.len() ==> !('A' <= #[trigger] name@[i] <= 'Z'),
    ensures
        match value {
            Ok(text) => header_text(*headers, name@) == Some(text@),
            Err(error) => header_text(*headers, name@) is None && error == ApiError::Unauthorized,
        },
{
    broadcast use vstd::utf8::encode_utf8_decode_utf8;

    match first_header(headers, name) {
        Some(value) => match value.to_str() {
            Ok(text) => {
                if text.as_bytes().len() > 0 {
                    Ok(text)
                } else {
                    Err(ApiError::Unauthorized)
                }
            },
            Err(_) => Err(ApiError::Unauthorized),
        },
        None => Err(ApiError::Unauthorized),
    }
}

/// Whether headers carry credentials at all.
pub open spec fn has_credentials(headers: HeaderMap) -> bool {
    header_text(headers, "clientid"@) is Some && header_text(headers, "clientsecret"@) is Some
}

impl Credentials {
    /// Whether these are the credentials that headers carry.
    pub open spec fn are_carried_by(self, headers: HeaderMap) -> bool {
        &&& header_text(headers, "clientid"@) == Some(self.client_id@)
        &&& header_text(headers, "clientsecret"@) == Some(self.client_secret@)
    }

    /// Reads the credentials from the `clientId` and `clientSecret` headers.
    pub fn from_headers(headers: &HeaderMap) -> (credentials: Result<Credentials, ApiError>)
        ensures
            match credentials {
                Ok(credentials) => credentials.are_carried_by(*headers),
                Err(error) => !has_credentials(*headers) && error == ApiError::Unauthorized,
            },
    {
        proof {
            reveal_strlit("clientid");
            reveal_strlit("clientsecret");
        }
        let client_id = match header_value(headers, "clientid") {
            Ok(text) => text.to_owned(),
            Err(error) => {
                return Err(error);
            },
        };
        let client_secret = match header_value(headers, "clientsecret") {
            Ok(text) => text.to_owned(),
            Err(error) => {
                return Err(error);
            },
        };
        Ok(Credentials { client_id, client_secret })
    }
}

/// Settles who a request comes from, given what the registry says of its
/// credentials.
pub fn authenticate(lookup: ProjectLookup) -> (identity: Result<ProjectIdentity, ApiError>)
    ensures
        identity == (match lookup {
            ProjectLookup::Found(identity) => Ok(identity),
            ProjectLookup::NotFound => Err(ApiError::Unauthorized),
            ProjectLookup::Failed => Err(ApiError::Unavailable),
        }),
{
    match lookup {
        ProjectLookup::Found(identity) => Ok(identity),
        ProjectLookup::NotFound => Err(ApiError::Unauthorized),
        ProjectLookup::Failed => Err(ApiError::Unavailable),
    }
}

} // verus!
