//! Phases of a command, as reported to callers that poll.
use vstd::prelude::*;

verus! {

#[derive(Clone, Copy, Debug, PartialEq, Eq, Structural)]
pub enum ProcessStatus {
    InProgress,
    Success,
    Error,
}

pub open spec fn status_code(s: ProcessStatus) -> i32 {
    match s {
        ProcessStatus::InProgress => 1,
        ProcessStatus::Success => 0,
        ProcessStatus::Error => -1i32,
    }
}

impl ProcessStatus {
    /// Code of the phase across the foreign boundary.
    pub fn code(&self) -> (r: i32)
        ensures
            r == status_code(*self),
    {
        match self {
            ProcessStatus::InProgress => 1,
            ProcessStatus::Success => 0,
            ProcessStatus::Error => -1,
        }
    }
}

} // verus!
