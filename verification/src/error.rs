//! The error type of the library.

use vstd::prelude::*;
use crate::text::join2;

verus! {

/// What can go wrong in a request or in a helper.
#[derive(Debug, PartialEq)]
pub enum PaprikaError {
    /// A failure status without a readable error payload; holds the status.
    HttpError(String),
    /// A failure status with an error payload; holds the service's own words.
    ApiError(String),
    /// A document of an unexpected shape.
    JsonError(String),
    /// A request address that could not be formed.
    UrlError(String),
    /// A failure of the transport, or a response body that is no JSON.
    NetworkError(String),
    /// The deadline passed before the response came.
    TimeoutError,
    /// A failure to read or write a file.
    IoError(String),
    /// A failure to write CSV.
    CsvError(String),
    /// Anything else.
    GenericError(String),
    /// Input of the caller that was refused before any request was made.
    ValidationError(String),
}

/// The value of an error.
pub enum ErrorView {
    HttpError(Seq<char>),
    ApiError(Seq<char>),
    JsonError(Seq<char>),
    UrlError(Seq<char>),
    NetworkError(Seq<char>),
    TimeoutError,
    IoError(Seq<char>),
    CsvError(Seq<char>),
    GenericError(Seq<char>),
    ValidationError(Seq<char>),
}

impl View for PaprikaError {
    type V = ErrorView;

    open spec fn view(&self) -> ErrorView {
        match self {
            PaprikaError::HttpError(s) => ErrorView::HttpError(s@),
            PaprikaError::ApiError(s) => ErrorView::ApiError(s@),
            PaprikaError::JsonError(s) => ErrorView::JsonError(s@),
            PaprikaError::UrlError(s) => ErrorView::UrlError(s@),
            PaprikaError::NetworkError(s) => ErrorView::NetworkError(s@),
            PaprikaError::TimeoutError => ErrorView::TimeoutError,
            PaprikaError::IoError(s) => ErrorView::IoError(s@),
            PaprikaError::CsvError(s) => ErrorView::CsvError(s@),
            PaprikaError::GenericError(s) => ErrorView::GenericError(s@),
            PaprikaError::ValidationError(s) => ErrorView::ValidationError(s@),
        }
    }
}

/// The line of text that describes an error.
pub open spec fn error_text(e: ErrorView) -> Seq<char> {
    match e {
        ErrorView::HttpError(s) => "HTTP request failed: "@ + s,
        ErrorView::ApiError(s) => "API error: "@ + s,
        ErrorView::JsonError(s) => "JSON parsing error: "@ + s,
        ErrorView::UrlError(s) => "URL parsing error: "@ + s,
        ErrorView::NetworkError(s) => "Network error: "@ + s,
        ErrorView::TimeoutError => "Request timeout"@,
        ErrorView::IoError(s) => "IO error: "@ + s,
        ErrorView::CsvError(s) => "CSV error: "@ + s,
        ErrorView::GenericError(s) => "Generic error: "@ + s,
        ErrorView::ValidationError(s) => "Validation error: "@ + s,
    }
}

impl PaprikaError {
    /// The line of text that describes the error.
    pub fn message(&self) -> (r: String)
        ensures
            r@ == error_text(self@),
    {
        match self {
            PaprikaError::HttpError(s) => join2("HTTP request failed: ", s.as_str()),
            PaprikaError::ApiError(s) => join2("API error: ", s.as_str()),
            PaprikaError::JsonError(s) => join2("JSON parsing error: ", s.as_str()),
            PaprikaError::UrlError(s) => join2("URL parsing error: ", s.as_str()),
            PaprikaError::NetworkError(s) => join2("Network error: ", s.as_str()),
            PaprikaError::TimeoutError => "Request timeout".to_owned(),
            PaprikaError::IoError(s) => join2("IO error: ", s.as_str()),
            PaprikaError::CsvError(s) => join2("CSV error: ", s.as_str()),
            PaprikaError::GenericError(s) => join2("Generic error: ", s.as_str()),
            PaprikaError::ValidationError(s) => join2("Validation error: ", s.as_str()),
        }
    }

    /// A generic error with the given words.
    pub fn generic(words: &str) -> (r: PaprikaError)
        ensures
            r@ == ErrorView::GenericError(words@),
    {
        PaprikaError::GenericError(words.to_owned())
    }
}

impl Clone for PaprikaError {
    fn clone(&self) -> (r: PaprikaError)
        ensures
            r@ == self@,
    {
        match self {
            PaprikaError::HttpError(s) => PaprikaError::HttpError(s.clone()),
            PaprikaError::ApiError(s) => PaprikaError::ApiError(s.clone()),
            PaprikaError::JsonError(s) => PaprikaError::JsonError(s.clone()),
            PaprikaError::UrlError(s) => PaprikaError::UrlError(s.clone()),
            PaprikaError::NetworkError(s) => PaprikaError::NetworkError(s.clone()),
            PaprikaError::TimeoutError => PaprikaError::TimeoutError,
            PaprikaError::IoError(s) => PaprikaError::IoError(s.clone()),
            PaprikaError::CsvError(s) => PaprikaError::CsvError(s.clone()),
            PaprikaError::GenericError(s) => PaprikaError::GenericError(s.clone()),
            PaprikaError::ValidationError(s) => PaprikaError::ValidationError(s.clone()),
        }
    }
}

impl From<String> for PaprikaError {
    fn from(error: String) -> (r: PaprikaError) {
        PaprikaError::GenericError(error)
    }
}

impl vstd::std_specs::convert::FromSpecImpl<String> for PaprikaError {
    open spec fn obeys_from_spec() -> bool {
        true
    }

    open spec fn from_spec(error: String) -> PaprikaError {
        PaprikaError::GenericError(error)
    }
}

} // verus!
