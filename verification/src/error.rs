//! The error type that the webhook handlers answer with.

use vstd::prelude::*;

verus! {

/// Why a webhook request could not be handled.
#[derive(Clone, Debug)]
pub enum Error {
    /// A value (first field: its kind) could not be parsed into another kind (second field).
    FailedToParse(String, String),
    /// A required key is missing.
    KeyNotFound(String),
    /// A value does not have the expected type (the field names that type).
    CouldNotExtract(String),
}

/// The mathematical content of an [`Error`]: the same variants over character sequences.
pub enum ErrorView {
    FailedToParse(Seq<char>, Seq<char>),
    KeyNotFound(Seq<char>),
    CouldNotExtract(Seq<char>),
}

impl View for Error {
    type V = ErrorView;

    open spec fn view(&self) -> ErrorView {
        match self {
            Error::FailedToParse(from, to) => ErrorView::FailedToParse(from@, to@),
            Error::KeyNotFound(key) => ErrorView::KeyNotFound(key@),
            Error::CouldNotExtract(ty) => ErrorView::CouldNotExtract(ty@),
        }
    }
}

/// The text that an error is reported with.
pub open spec fn error_message(e: ErrorView) -> Seq<char> {
    match e {
        ErrorView::CouldNotExtract(ty) => "Could not extract as type \""@ + ty + "\""@,
        ErrorView::FailedToParse(from, to) => "Failed to parse \""@ + from + "\" to \""@ + to
            + "\""@,
        ErrorView::KeyNotFound(key) => "Key not found: \""@ + key + "\""@,
    }
}

impl Error {
    /// The error for a value of kind `from` that could not be parsed as `to`.
    pub fn ftp(from: &str, to: &str) -> (e: Self)
        ensures
            e@ == ErrorView::FailedToParse(from@, to@),
    {
        Error::FailedToParse(String::from_str(from), String::from_str(to))
    }

    /// The error for a missing key.
    pub fn knf(key: &str) -> (e: Self)
        ensures
            e@ == ErrorView::KeyNotFound(key@),
    {
        Error::KeyNotFound(String::from_str(key))
    }

    /// The error for a value that is not of the expected type.
    pub fn cne(expected_type: &str) -> (e: Self)
        ensures
            e@ == ErrorView::CouldNotExtract(expected_type@),
    {
        Error::CouldNotExtract(String::from_str(expected_type))
    }

    /// The message of the error, as sent in the body of an error response.
    pub fn to_string(&self) -> (s: String)
        ensures
            s@ == error_message(self@),
    {
        match self {
            Error::CouldNotExtract(ty) => {
                let mut s = String::from_str("Could not extract as type \"");
                s.append(ty.as_str());
                s.append("\"");
                s
            },
            Error::FailedToParse(from, to) => {
                let mut s = String::from_str("Failed to parse \"");
                s.append(from.as_str());
                s.append("\" to \"");
                s.append(to.as_str());
                s.append("\"");
                s
            },
            Error::KeyNotFound(key) => {
                let mut s = String::from_str("Key not found: \"");
                s.append(key.as_str());
                s.append("\"");
                s
            },
        }
    }
}

} // verus!
