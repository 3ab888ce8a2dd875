use vstd::prelude::*;

use crate::error::ProgramError;

verus! {

/// The counter program's own error cases.
#[derive(Clone, Copy, Debug, PartialEq, Eq, Structural)]
pub enum CounterError {
    /// Unauthorized to perform this action.
    Unauthorized,
    /// Counter overflow.
    Overflow,
    /// Counter underflow.
    Underflow,
}

impl CounterError {
    /// The program error an instruction fails with for this error: a custom error whose
    /// code is the variant's position (0, 1, 2).
    pub open spec fn spec_program_error(self) -> ProgramError {
        match self {
            CounterError::Unauthorized => ProgramError::Custom(0),
            CounterError::Overflow => ProgramError::Custom(1),
            CounterError::Underflow => ProgramError::Custom(2),
        }
    }

    pub fn program_error(self) -> (r: ProgramError)
        ensures
            r == self.spec_program_error(),
    {
        match self {
            CounterError::Unauthorized => ProgramError::Custom(0),
            CounterError::Overflow => ProgramError::Custom(1),
            CounterError::Underflow => ProgramError::Custom(2),
        }
    }
}

} // verus!
