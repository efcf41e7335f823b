use vstd::prelude::*;

verus! {

/// The closed set of errors the orchestration core reports synchronously.
///
/// Errors arising on a worker context are never thrown across contexts; they
/// are posted to the bus instead.
#[derive(Debug)]
pub enum Error {
    /// The textual graph description is malformed or names an unknown
    /// element; nothing is left half-built.  Carries a domain, a non-zero
    /// numeric code and a human-readable message.
    Parse { domain: u64, code: u64, message: String },
    /// Adding an element already owned, or removing one not owned, by the
    /// container; rejected synchronously with no partial mutation.
    Ownership { message: String },
}

impl Error {
    /// The numeric code of a parse error; other errors carry no code.
    pub fn code(&self) -> (r: u64)
        ensures
            r == (match *self {
                Error::Parse { code, .. } => code,
                Error::Ownership { .. } => 0u64,
            }),
    {
        match self {
            Error::Parse { code, .. } => *code,
            Error::Ownership { .. } => 0,
        }
    }
}

} // verus!
