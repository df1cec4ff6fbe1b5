use vstd::prelude::*;
use vstd::string::*;

verus! {

/// The two failure classes: a document that does not deserialize, and a
/// file that cannot be read.
#[derive(Clone, Copy, Debug, PartialEq, Eq, Structural)]
pub enum Kind {
    Json,
    File,
}

/// Ghost image of an [`Error`]: its kind and the text of its cause, if any.
pub struct ErrorV {
    pub kind: Kind,
    pub source: Option<Seq<char>>,
}

/// A decoding or file error: a kind together with an optional cause text.
#[derive(Debug)]
pub struct Error {
    kind: Kind,
    source: Option<String>,
}

impl View for Error {
    type V = ErrorV;

    closed spec fn view(&self) -> ErrorV {
        ErrorV { kind: self.kind, source: self.source.deep_view() }
    }
}

/// The description each kind displays as.
pub open spec fn spec_kind_text(k: Kind) -> Seq<char> {
    match k {
        Kind::Json => "Deserializing json"@,
        Kind::File => "Reading file"@,
    }
}

/// The uniform display text of an error: the kind's description, then the
/// cause after a separating colon, when one is present.
pub open spec fn spec_error_message(e: ErrorV) -> Seq<char> {
    match e.source {
        Some(s) => spec_kind_text(e.kind) + ": "@ + s,
        None => spec_kind_text(e.kind),
    }
}

/// The text a [`Kind`] displays as.
pub fn kind_text(k: Kind) -> (r: String)
    ensures
        r@ == spec_kind_text(k),
{
    match k {
        Kind::Json => String::from_str("Deserializing json"),
        Kind::File => String::from_str("Reading file"),
    }
}

impl Error {
    pub fn new(kind: Kind, source: Option<String>) -> (r: Error)
        ensures
            r@.kind == kind,
            r@.source == source.deep_view(),
    {
        Error { kind, source }
    }

    pub fn kind(&self) -> (k: Kind)
        ensures
            k == self@.kind,
    {
        self.kind
    }

    /// The display text: kind description, then the cause if any.
    pub fn message(&self) -> (r: String)
        ensures
            r@ == spec_error_message(self@),
    {
        let mut s = kind_text(self.kind);
        if let Some(src) = &self.source {
            s.append(": ");
            s.append(src.as_str());
        }
        s
    }
}

/// Wraps the message of a failed file read.
pub fn open_file(source: String) -> (r: Error)
    ensures
        r@.kind == Kind::File,
        r@.source == Some(source@),
{
    Error::new(Kind::File, Some(source))
}

/// Wraps the message of a failed deserialization.
pub fn deserialize(source: String) -> (r: Error)
    ensures
        r@.kind == Kind::Json,
        r@.source == Some(source@),
{
    Error::new(Kind::Json, Some(source))
}

} // verus!
