//! The ways in which fetching and converting an article fails.

use crate::source::Field;
use vstd::prelude::*;

verus! {

/// Why no document was produced. Every error ends the run: nothing is retried.
#[derive(Clone, Copy, Debug, PartialEq, Eq, Structural)]
pub enum Error {
    /// The address is not on a domain of the source that was asked to fetch it.
    UnsupportedDomain,
    /// The login page holds no field with the token that the login form must carry.
    TokenNotFound,
    /// A request did not get through, or the article came back with a status other than success.
    NetworkError,
    /// The page holds no title or no body.
    MissingMandatoryField(Field),
    /// No configured source serves the domain of the address.
    NoSourceForDomain,
}

/// The model of a text that may have failed to come about.
pub open spec fn view_text(result: Result<String, Error>) -> Result<Seq<char>, Error> {
    match result {
        Ok(text) => Ok(text@),
        Err(e) => Err(e),
    }
}

impl Error {
    /// The text of the message for this error.
    pub open spec fn message_text(self) -> Seq<char> {
        match self {
            Error::UnsupportedDomain => "unsupported domain"@,
            Error::TokenNotFound => "csrf token not found"@,
            Error::NetworkError => "network error"@,
            Error::MissingMandatoryField(field) => "no article_"@ + field.name_text(),
            Error::NoSourceForDomain => "no source for domain"@,
        }
    }

    /// A message for the user.
    pub fn message(&self) -> (text: String)
        ensures
            text@ == self.message_text(),
    {
        match self {
            Error::UnsupportedDomain => String::from_str("unsupported domain"),
            Error::TokenNotFound => String::from_str("csrf token not found"),
            Error::NetworkError => String::from_str("network error"),
            Error::MissingMandatoryField(field) => {
                let mut text = String::from_str("no article_");
                text.append(field.name());
                text
            },
            Error::NoSourceForDomain => String::from_str("no source for domain"),
        }
    }
}

} // verus!
