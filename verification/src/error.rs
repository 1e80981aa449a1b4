//! The failures a process group operation can report.

use vstd::prelude::*;

verus! {

/// Why an operation on a process group failed.
///
/// `code` is the error number the operating system gave for the failing call.
#[derive(Clone, Copy, Debug, PartialEq, Eq, Structural)]
pub enum GroupError {
    /// Establishing the group identity failed before or during spawn.
    Setup { code: i32 },
    /// The reap mechanism itself failed; the group's status stays unobserved.
    Wait { code: i32 },
    /// A kill or a signal was addressed to a group that has already exited.
    InvalidOperation,
    /// A signal could not be sent, or a group not be terminated, for another
    /// reason than that the group is gone.
    Signal { code: i32 },
    /// Reading one of the output streams failed; what was read is discarded.
    Drain { code: i32 },
    /// The operating system answered in a way its interface rules out.
    Internal,
}

impl GroupError {
    /// The operating system's error number, for the failures that carry one.
    pub open spec fn spec_code(self) -> Option<i32> {
        match self {
            GroupError::Setup { code } => Some(code),
            GroupError::Wait { code } => Some(code),
            GroupError::Signal { code } => Some(code),
            GroupError::Drain { code } => Some(code),
            GroupError::InvalidOperation => None,
            GroupError::Internal => None,
        }
    }

    /// The operating system's error number, for the failures that carry one.
    pub fn code(&self) -> (code: Option<i32>)
        ensures
            code == self.spec_code(),
    {
        match self {
            GroupError::Setup { code } => Some(*code),
            GroupError::Wait { code } => Some(*code),
            GroupError::Signal { code } => Some(*code),
            GroupError::Drain { code } => Some(*code),
            GroupError::InvalidOperation => None,
            GroupError::Internal => None,
        }
    }

    /// Whether this is the distinct condition of addressing an exited group.
    pub fn is_invalid_operation(&self) -> (yes: bool)
        ensures
            yes == (*self == GroupError::InvalidOperation),
    {
        match self {
            GroupError::InvalidOperation => true,
            _ => false,
        }
    }
}

} // verus!
