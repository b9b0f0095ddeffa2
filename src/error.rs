//! Errors that the library reports.
use vstd::prelude::*;

verus! {

/// The kinds of failure that callers must tell apart.
#[derive(Debug, Clone, PartialEq, Eq)]
pub enum Error {
    /// Malformed project definition output.
    DefinitionParsing(String),
    /// The project generator failed.
    Generate,
    /// Setting up a runner failed.
    Run(String),
    /// An invariant did not hold.
    Unexpected(String),
    /// A value could not be read.
    Message(String),
}


/// What an error says, as shown to the user.
pub open spec fn error_text(e: Error) -> Seq<char> {
    match e {
        Error::DefinitionParsing(s) => "definition parsing: "@ + s@,
        Error::Generate => "generation failed"@,
        Error::Run(s) => "run: "@ + s@,
        Error::Unexpected(s) => "unexpected: "@ + s@,
        Error::Message(s) => s@,
    }
}

impl Error {
    /// What the error says, as shown to the user.
    pub fn describe(&self) -> (r: String)
        ensures
            r@ == error_text(*self),
    {
        match self {
            Error::DefinitionParsing(s) => String::from_str("definition parsing: ").concat(s.as_str()),
            Error::Generate => String::from_str("generation failed"),
            Error::Run(s) => String::from_str("run: ").concat(s.as_str()),
            Error::Unexpected(s) => String::from_str("unexpected: ").concat(s.as_str()),
            Error::Message(s) => s.clone(),
        }
    }
}

} // verus!
