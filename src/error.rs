use vstd::prelude::*;

verus! {

/// The kinds of failure that a call into the service can end in.
#[derive(Debug, Clone)]
pub enum Error {
    /// A failure that fits no other kind.
    Unspecified(String),
    /// A document lacks a field or a link that the protocol requires.
    ParseError(String),
    /// A body does not have the shape that was asked for.
    SerializationError(String),
    /// The request could not be sent or the connection failed.
    NetworkError(String),
    /// The service answered with a status outside 200..=299 other than 429.
    ApiError(u16, String),
    /// The service kept answering 429 until no attempt was left.
    Throttling,
    /// A result set that was required to hold something was empty.
    NotFound,
}

/// The text that describes an error to a person.
pub open spec fn error_text(e: Error) -> Seq<char> {
    match e {
        Error::Unspecified(g) => g@,
        Error::ParseError(g) => g@,
        Error::SerializationError(g) => g@,
        Error::NetworkError(g) => g@,
        Error::ApiError(_, g) => g@,
        Error::Throttling => "Throttling."@,
        Error::NotFound => "Not found."@,
    }
}

impl Error {
    /// The text that describes this error to a person.
    pub fn message(&self) -> (r: String)
        ensures
            r@ == error_text(*self),
    {
        match self {
            Error::Unspecified(g) => g.clone(),
            Error::ParseError(g) => g.clone(),
            Error::SerializationError(g) => g.clone(),
            Error::NetworkError(g) => g.clone(),
            Error::ApiError(_, g) => g.clone(),
            Error::Throttling => String::from_str("Throttling."),
            Error::NotFound => String::from_str("Not found."),
        }
    }
}

} // verus!
