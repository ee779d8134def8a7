use vstd::prelude::*;

verus! {

/// The kinds of failure this library reports.
#[derive(Clone, Copy, Debug, PartialEq, Eq, Structural)]
pub enum ErrorKind {
    /// A string that should hold an identifier is not a well-formed one.
    InvalidIdentifier,
    /// A referenced entity (a breed) does not exist at the time of use.
    InvalidReference,
    /// The store could not carry out the operation.
    Store,
}

/// An error with its kind, a message naming the attempted operation, and an
/// optional cause.
#[derive(Debug)]
pub struct Error {
    pub kind: ErrorKind,
    pub message: String,
    pub cause: Option<String>,
}

/// The text of an error: its message, followed by `": "` and the cause when
/// there is one.
pub open spec fn error_text(e: Error) -> Seq<char> {
    match e.cause {
        Some(c) => e.message@ + ": "@ + c@,
        None => e.message@,
    }
}

/// The error has the given kind, the message of the operation that failed,
/// and the given cause.
pub open spec fn failed_with(e: Error, kind: ErrorKind, operation: Seq<char>, cause: Seq<char>) -> bool {
    &&& e.kind == kind
    &&& e.message@ == operation
    &&& e.cause matches Some(c) && c@ == cause
}

impl Error {
    /// A store error with the given message and no cause.
    pub fn new(message: &str) -> (r: Error)
        ensures
            r.kind == ErrorKind::Store,
            r.message@ == message@,
            r.cause is None,
    {
        Error::of_kind(ErrorKind::Store, message)
    }

    /// An error of the given kind with the given message and no cause.
    pub fn of_kind(kind: ErrorKind, message: &str) -> (r: Error)
        ensures
            r.kind == kind,
            r.message@ == message@,
            r.cause is None,
    {
        Error { kind, message: message.to_owned(), cause: None }
    }

    /// The same error, with `cause` attached.
    pub fn with_cause(self, cause: &str) -> (r: Error)
        ensures
            r.kind == self.kind,
            r.message == self.message,
            r.cause matches Some(c) && c@ == cause@,
    {
        Error { cause: Some(cause.to_owned()), ..self }
    }

    /// The same failure, described as part of `operation`: the message
    /// becomes `operation` and the former text becomes the cause.
    pub fn context(self, operation: &str) -> (r: Error)
        ensures
            r.kind == self.kind,
            r.message@ == operation@,
            r.cause matches Some(c) && c@ == error_text(self),
    {
        let cause = self.to_string();
        Error { kind: self.kind, message: operation.to_owned(), cause: Some(cause) }
    }

    pub fn kind(&self) -> (r: ErrorKind)
        ensures
            r == self.kind,
    {
        self.kind
    }

    /// The message, followed by `": "` and the cause when there is one.
    pub fn to_string(&self) -> (r: String)
        ensures
            r@ == error_text(*self),
    {
        let mut text = self.message.clone();
        match &self.cause {
            Some(c) => {
                text.append(": ");
                text.append(c.as_str());
            },
            None => {},
        }
        text
    }
}

} // verus!
