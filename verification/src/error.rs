//! What can go wrong with a request.

use crate::text::{decimal, decimal_text};
use vstd::prelude::*;
use vstd::string::StringExecFns;

verus! {

/// A failed request.
#[derive(Debug)]
pub enum Error {
    /// The request could not be sent, or its answer could not be read. It
    /// holds the transport's description of the failure.
    Http(String),
    /// The service refused the request.
    Api { status: u16, message: String },
    /// A body could not be written or read as JSON. It holds the description
    /// of the failure.
    Json(String),
}

/// The mathematical model of an [`Error`].
pub enum ErrorView {
    Http(Seq<char>),
    Api { status: u16, message: Seq<char> },
    Json(Seq<char>),
}

impl View for Error {
    type V = ErrorView;

    open spec fn view(&self) -> ErrorView {
        match self {
            Error::Http(text) => ErrorView::Http(text@),
            Error::Api { status, message } => ErrorView::Api { status: *status, message: message@ },
            Error::Json(text) => ErrorView::Json(text@),
        }
    }
}

impl ErrorView {
    /// The line that describes the error.
    pub open spec fn message(self) -> Seq<char> {
        match self {
            ErrorView::Http(text) => "HTTP error: "@ + text,
            ErrorView::Api { status, message } => "API error ("@ + decimal(status as nat) + "): "@
                + message,
            ErrorView::Json(text) => "JSON error: "@ + text,
        }
    }
}

impl Error {
    /// The line that describes the error.
    pub fn message(&self) -> (line: String)
        ensures
            line@ == self@.message(),
    {
        match self {
            Error::Http(text) => {
                let mut line = "HTTP error: ".to_owned();
                line.append(text);
                line
            },
            Error::Api { status, message } => {
                let mut line = "API error (".to_owned();
                let code = decimal_text(*status as u64);
                line.append(&code);
                line.append("): ");
                line.append(message);
                line
            },
            Error::Json(text) => {
                let mut line = "JSON error: ".to_owned();
                line.append(text);
                line
            },
        }
    }
}

impl Clone for Error {
    fn clone(&self) -> (out: Error)
        ensures
            out@ == self@,
    {
        match self {
            Error::Http(text) => Error::Http(text.clone()),
            Error::Api { status, message } => Error::Api {
                status: *status,
                message: message.clone(),
            },
            Error::Json(text) => Error::Json(text.clone()),
        }
    }
}

} // verus!
