//! Extracts image announcements from an HTML email body, turns each into a
//! calendar event scheduled for the coming Sunday, and prepares them for
//! publication to a CMS over HTTP.

use vstd::prelude::*;

pub mod cms;
pub mod date;
pub mod event;
pub mod handler;
pub mod parser;
pub mod text;

pub use cms::Cms;
pub use event::Event;
pub use parser::parse_email;

verus! {

/// The error type used by the library.
#[derive(Debug, Clone, PartialEq, Eq)]
pub enum Error {
    /// The email could not be parsed.
    ParseError,
    /// The API returned an error.
    Api(String),
}

/// The description of an error, as the logs show it.
pub open spec fn message_of(e: Error) -> Seq<char> {
    match e {
        Error::ParseError => "The email could not be parsed."@,
        Error::Api(m) => "The API returned an error: "@ + m@,
    }
}

impl Error {
    /// A human-readable description of the error, for operator-facing logs.
    pub fn message(&self) -> (r: String)
        ensures
            r@ == message_of(*self),
    {
        match self {
            Error::ParseError => "The email could not be parsed.".to_owned(),
            Error::Api(m) => "The API returned an error: ".to_owned().concat(m.as_str()),
        }
    }
}

} // verus!
