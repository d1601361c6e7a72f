//! The one error type of the library.

use vstd::prelude::*;
use vstd::string::*;

verus! {

/// The ways in which a request can fail. Every variant carries the message
/// that is shown to the caller.
#[derive(Debug, Clone)]
pub enum Error {
    /// The service answered with a failure status, or put an error into the
    /// body of a successful answer.
    FigmaApi(String),
    /// The address is malformed, names another host, or is not a file address
    /// where one was needed.
    InvalidUrl(String),
    /// The access token cannot be sent as a header.
    Auth(String),
    /// The transport failed, or a body could not be read.
    Network(String),
    /// No resource is registered under the identifier.
    NotFound(String),
    /// The download address is past its lifetime and no bytes were kept.
    Expired(String),
    /// The store could not be reached.
    Internal(String),
}

/// What an `Error` holds, as mathematical values.
pub enum ErrorView {
    FigmaApi(Seq<char>),
    InvalidUrl(Seq<char>),
    Auth(Seq<char>),
    Network(Seq<char>),
    NotFound(Seq<char>),
    Expired(Seq<char>),
    Internal(Seq<char>),
}

impl View for Error {
    type V = ErrorView;

    open spec fn view(&self) -> ErrorView {
        match self {
            Error::FigmaApi(m) => ErrorView::FigmaApi(m@),
            Error::InvalidUrl(m) => ErrorView::InvalidUrl(m@),
            Error::Auth(m) => ErrorView::Auth(m@),
            Error::Network(m) => ErrorView::Network(m@),
            Error::NotFound(m) => ErrorView::NotFound(m@),
            Error::Expired(m) => ErrorView::Expired(m@),
            Error::Internal(m) => ErrorView::Internal(m@),
        }
    }
}

impl Error {
    /// The message that the error carries.
    pub open spec fn message(&self) -> Seq<char> {
        match self {
            Error::FigmaApi(m) => m@,
            Error::InvalidUrl(m) => m@,
            Error::Auth(m) => m@,
            Error::Network(m) => m@,
            Error::NotFound(m) => m@,
            Error::Expired(m) => m@,
            Error::Internal(m) => m@,
        }
    }

    /// The words that introduce the message of each kind of error.
    pub open spec fn label(&self) -> Seq<char> {
        match self {
            Error::FigmaApi(_) => "Figma API error: "@,
            Error::InvalidUrl(_) => "Invalid URL: "@,
            Error::Auth(_) => "Authentication error: "@,
            Error::Network(_) => "Network error: "@,
            Error::NotFound(_) => "Not found: "@,
            Error::Expired(_) => "Expired: "@,
            Error::Internal(_) => "Internal error: "@,
        }
    }

    /// The full text of the error: its label, then its message.
    pub open spec fn text(&self) -> Seq<char> {
        self.label() + self.message()
    }

    /// Renders the error as its label followed by its message.
    pub fn to_string(&self) -> (s: String)
        ensures
            s@ == self.text(),
    {
        let (label, message): (&str, &String) = match self {
            Error::FigmaApi(m) => ("Figma API error: ", m),
            Error::InvalidUrl(m) => ("Invalid URL: ", m),
            Error::Auth(m) => ("Authentication error: ", m),
            Error::Network(m) => ("Network error: ", m),
            Error::NotFound(m) => ("Not found: ", m),
            Error::Expired(m) => ("Expired: ", m),
            Error::Internal(m) => ("Internal error: ", m),
        };
        let mut s = String::from_str(label);
        s.append(message.as_str());
        s
    }
}

} // verus!
