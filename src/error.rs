use vstd::prelude::*;

verus! {

/// What went wrong.
#[derive(Clone, Copy, Debug, PartialEq, Eq, Structural)]
pub enum ErrorKind {
    /// A pixel buffer whose size or shape does not match its dimensions.
    Format,
    /// Image bytes that could not be decoded.
    Decode,
    /// An instance index or grid coordinate out of range.
    Index,
    /// A GPU resource that could not be created or mapped.
    Device,
    /// An id or slot outside its fixed range, or an empty slot.
    Config,
}

/// The characters of an optional string.
pub open spec fn opt_chars(s: Option<String>) -> Option<Seq<char>> {
    match s {
        Some(t) => Some(t@),
        None => None,
    }
}

/// The error type of this library.
#[derive(Clone, Debug)]
pub struct A2DError {
    kind: ErrorKind,
    message: String,
    source: Option<String>,
}

impl A2DError {
    pub fn new(kind: ErrorKind, message: String, source: Option<String>) -> (r: A2DError)
        ensures
            r.kind_spec() == kind,
            r.message_spec() == message@,
            r.source_spec() == opt_chars(source),
    {
        A2DError { kind, message, source }
    }

    pub closed spec fn kind_spec(&self) -> ErrorKind {
        self.kind
    }

    pub closed spec fn message_spec(&self) -> Seq<char> {
        self.message@
    }

    pub closed spec fn source_spec(&self) -> Option<Seq<char>> {
        opt_chars(self.source)
    }

    pub fn kind(&self) -> (r: ErrorKind)
        ensures
            r == self.kind_spec(),
    {
        self.kind
    }

    pub fn message(&self) -> (r: &String)
        ensures
            r@ == self.message_spec(),
    {
        &self.message
    }

    /// The diagnostic of the underlying cause, if any.
    pub fn source(&self) -> (r: Option<String>)
        ensures
            opt_chars(r) == self.source_spec(),
    {
        match &self.source {
            Some(s) => Some(s.clone()),
            None => None,
        }
    }
}

/// An error of the given kind with a fixed message and no cause.
pub fn error_of(kind: ErrorKind, message: &str) -> (r: A2DError)
    ensures
        r.kind_spec() == kind,
        r.message_spec() == message@,
        r.source_spec() is None,
{
    A2DError::new(kind, message.to_owned(), None)
}

} // verus!
