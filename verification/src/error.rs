//! Failures that building an address or an envelope can report.

use vstd::prelude::*;

verus! {

/// Error type for email content
#[derive(Debug, Clone, Copy, PartialEq, Eq, Structural)]
pub enum Error {
    /// Missing from in envelope
    MissingFrom,
    /// Missing to in envelope
    MissingTo,
    /// Invalid email
    InvalidEmailAddress,
}

/// Email result type
pub type EmailResult<T> = Result<T, Error>;

impl Error {
    /// The fixed one-line text that belongs to each kind of failure.
    pub open spec fn description_text(self) -> Seq<char> {
        match self {
            Error::MissingFrom => "missing source address, invalid envelope"@,
            Error::MissingTo => "missing destination address, invalid envelope"@,
            Error::InvalidEmailAddress => "invalid email address"@,
        }
    }

    /// A short description of the failure.
    pub fn description(&self) -> (text: &'static str)
        ensures
            text@ == self.description_text(),
    {
        match *self {
            Error::MissingFrom => "missing source address, invalid envelope",
            Error::MissingTo => "missing destination address, invalid envelope",
            Error::InvalidEmailAddress => "invalid email address",
        }
    }

    /// The failure has no underlying cause.
    pub fn cause(&self) -> (cause: Option<Error>)
        ensures
            cause.is_none(),
    {
        None
    }

    /// The description as an owned string, which is how the failure is displayed.
    pub fn to_string(&self) -> (text: String)
        ensures
            text@ == self.description_text(),
    {
        self.description().to_owned()
    }
}

/// The three kinds of failure have three different descriptions, so a
/// description identifies its kind.
pub proof fn lemma_description_identifies_kind(a: Error, b: Error)
    ensures
        a.description_text() == b.description_text() <==> a == b,
{
    reveal_strlit("missing source address, invalid envelope");
    reveal_strlit("missing destination address, invalid envelope");
    reveal_strlit("invalid email address");
    if a != b {
        assert(a.description_text().len() != b.description_text().len());
    }
}

} // verus!
