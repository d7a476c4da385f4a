//! The ways in which a search can fail.

use vstd::prelude::*;
use vstd::string::StringExecFns;

verus! {

/// Why a search produced no records.
#[derive(Debug, Clone, PartialEq, Eq)]
pub enum Error {
    /// The page could not be fetched. The text is what the transport said of
    /// the failure.
    ConnectionError(String),
    /// The document could not be read as a listing page at all.
    ParseError,
    /// The service has no usable endpoint.
    InvalidServiceError,
    /// A required field of the query is empty.
    RequiredFieldError,
    /// The operation is not offered for this service.
    NotImplementedError,
    /// The document does not have the structure of a listing page.
    InvalidResponseError,
}

impl Error {
    /// The text shown for each failure. That of a connection error ends in
    /// what the transport said.
    pub open spec fn spec_message(self) -> Seq<char> {
        match self {
            Error::ConnectionError(detail) => "Connection error: "@ + detail@,
            Error::ParseError => "Parse error"@,
            Error::InvalidServiceError => "Invalid URL"@,
            Error::RequiredFieldError => "Invalid URL"@,
            Error::NotImplementedError => "Not implemented"@,
            Error::InvalidResponseError => "Invalid Response"@,
        }
    }

    /// A short description of the failure, for display.
    pub fn message(&self) -> (text: String)
        ensures
            text@ == self.spec_message(),
    {
        match self {
            Error::ConnectionError(detail) => {
                let mut text = "Connection error: ".to_owned();
                text.append(detail.as_str());
                text
            },
            Error::ParseError => "Parse error".to_owned(),
            Error::InvalidServiceError => "Invalid URL".to_owned(),
            Error::RequiredFieldError => "Invalid URL".to_owned(),
            Error::NotImplementedError => "Not implemented".to_owned(),
            Error::InvalidResponseError => "Invalid Response".to_owned(),
        }
    }
}

} // verus!
