use vstd::prelude::*;

verus! {

/// Why an operation of the library did not take place.
#[derive(Clone, Copy, Debug, PartialEq, Eq, Structural)]
pub enum BudgrError {
    /// An index names a log or a purchase beyond the current bounds.
    IndexOutOfRange,
    /// A cost entry is not a decimal integer that fits in `i64`.
    ParseFailure,
    /// A log of that name exists already.
    LogExists,
    /// A log name holds a space.
    SpaceInName,
}

impl BudgrError {
    /// The text of the message for each kind of error.
    pub open spec fn message_text(self) -> Seq<char> {
        match self {
            BudgrError::IndexOutOfRange => "index out of range"@,
            BudgrError::ParseFailure => "cost is not a number"@,
            BudgrError::LogExists => "log already exists"@,
            BudgrError::SpaceInName => "spaces not allowed in log names"@,
        }
    }

    /// A short message for the user.
    pub fn message(&self) -> (text: &'static str)
        ensures
            text@ == self.message_text(),
    {
        match self {
            BudgrError::IndexOutOfRange => "index out of range",
            BudgrError::ParseFailure => "cost is not a number",
            BudgrError::LogExists => "log already exists",
            BudgrError::SpaceInName => "spaces not allowed in log names",
        }
    }
}

} // verus!
