//! How a scan ended.

use vstd::prelude::*;

verus! {

/// The classification of a finished scan.
#[derive(Clone, Copy, Debug, PartialEq, Eq, Structural)]
pub enum ExitCode {
    /// Ended gracefully without a statement about results.
    Success,
    /// Ran to completion; the flag says whether any entry was found.
    HasResults(bool),
    /// Failed.
    GeneralError,
    /// Ended by an interrupt from outside.
    KilledBySigint,
}

impl ExitCode {
    /// The process status of each classification: zero for success with or
    /// without results, one for a failure, 130 for an interrupt.
    pub open spec fn spec_code(self) -> i32 {
        match self {
            ExitCode::Success => 0i32,
            ExitCode::HasResults(_) => 0i32,
            ExitCode::GeneralError => 1i32,
            ExitCode::KilledBySigint => 130i32,
        }
    }

    pub open spec fn spec_is_error(self) -> bool {
        self == ExitCode::GeneralError || self == ExitCode::KilledBySigint
    }

    /// The process status to exit with.
    pub fn code(self) -> (status: i32)
        ensures
            status == self.spec_code(),
            (status == 0) == !self.spec_is_error(),
    {
        match self {
            ExitCode::Success => 0i32,
            ExitCode::HasResults(_) => 0i32,
            ExitCode::GeneralError => 1i32,
            ExitCode::KilledBySigint => 130i32,
        }
    }

    /// Whether the classification is a failure or an interrupt.
    pub fn is_error(self) -> (error: bool)
        ensures
            error == self.spec_is_error(),
    {
        match self {
            ExitCode::GeneralError => true,
            ExitCode::KilledBySigint => true,
            _ => false,
        }
    }
}

/// The outcome of a scan once the receiver has stopped: an interrupt
/// overrides whatever the receiver reported.
pub open spec fn final_classification(receiver: ExitCode, interrupted: bool) -> ExitCode {
    if interrupted {
        ExitCode::KilledBySigint
    } else {
        receiver
    }
}

/// Picks the outcome of a scan from the receiver's classification and the
/// interrupt flag as read after the receiver stopped.
pub fn classify(receiver: ExitCode, interrupted: bool) -> (outcome: ExitCode)
    ensures
        outcome == final_classification(receiver, interrupted),
        interrupted ==> outcome == ExitCode::KilledBySigint,
        !interrupted ==> outcome == receiver,
{
    if interrupted {
        ExitCode::KilledBySigint
    } else {
        receiver
    }
}

} // verus!
