//! The failures that a caller can be told of, each with its fixed message.

use vstd::prelude::*;

verus! {

/// The format that an input was to be read as.
#[derive(Clone, Copy, Debug, PartialEq, Eq, Structural)]
pub enum Domain {
    Uuid,
    Url,
}

/// Why an operation failed.
#[derive(Clone, Copy, Debug, PartialEq, Eq, Structural)]
pub enum Failure {
    /// Text or bytes that do not parse as the format asked for; bytes of the
    /// wrong length are among them.
    MalformedInput(Domain),
    /// A name was exported that had not been declared.
    UndeclaredExport,
}

/// The message of each failure.
pub open spec fn message_text(error: Failure) -> Seq<char> {
    match error {
        Failure::MalformedInput(Domain::Uuid) => "Not a valid UUID"@,
        Failure::MalformedInput(Domain::Url) => "Not a valid URL"@,
        Failure::UndeclaredExport => "Export was not declared"@,
    }
}

impl Failure {
    /// The message that a script sees. It depends on the kind of failure
    /// alone, never on the input.
    pub fn message(&self) -> (r: &'static str)
        ensures
            r@ == message_text(*self),
    {
        match self {
            Failure::MalformedInput(Domain::Uuid) => "Not a valid UUID",
            Failure::MalformedInput(Domain::Url) => "Not a valid URL",
            Failure::UndeclaredExport => "Export was not declared",
        }
    }
}

} // verus!
