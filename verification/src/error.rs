//! Errors that can occur when working with a clock.
use vstd::prelude::*;

verus! {

/// The kinds of errors that can occur when working with a clock.
pub enum ErrorKind {
    /// A generic error with a message.
    Message(String),
    /// The clock is already running.
    ClockAlreadyRunning,
}

/// The text with which an error kind describes itself.
pub open spec fn kind_text(kind: ErrorKind) -> Seq<char> {
    match kind {
        ErrorKind::Message(message) => "An error occurred: "@ + message@,
        ErrorKind::ClockAlreadyRunning => "Clock is already running"@,
    }
}

impl ErrorKind {
    /// A generic `Message` error kind holding the given message.
    pub fn new(message: &str) -> (kind: ErrorKind)
        ensures
            kind matches ErrorKind::Message(m) && m@ == message@,
    {
        ErrorKind::Message(String::from_str(message))
    }

    /// The text that describes this kind of error.
    pub fn to_string(&self) -> (text: String)
        ensures
            text@ == kind_text(*self),
    {
        match self {
            ErrorKind::Message(message) => {
                let mut text = String::from_str("An error occurred: ");
                text.append(message.as_str());
                text
            },
            ErrorKind::ClockAlreadyRunning => String::from_str("Clock is already running"),
        }
    }
}

/// An error that can occur when working with a clock.
pub struct Error {
    kind: ErrorKind,
}

impl View for Error {
    type V = ErrorKind;

    closed spec fn view(&self) -> ErrorKind {
        self.kind
    }
}

impl Error {
    /// An error of the given kind.
    pub fn new(kind: ErrorKind) -> (error: Error)
        ensures
            error@ == kind,
    {
        Error { kind }
    }

    /// The kind of this error.
    pub fn kind(&self) -> (kind: &ErrorKind)
        ensures
            *kind == self@,
    {
        &self.kind
    }

    /// The text that describes this error: that of its kind.
    pub fn to_string(&self) -> (text: String)
        ensures
            text@ == kind_text(self@),
    {
        self.kind.to_string()
    }
}

} // verus!
