//! Reading the desktop backend's raw results: every primitive reports
//! failure with a sentinel code.
use vstd::prelude::*;

verus! {

/// The code with which a backend primitive reports failure.
pub const FAILURE_CODE: i32 = -1;

/// Why a backend primitive did not do its work.
#[derive(Clone, Copy, Debug, PartialEq, Eq)]
pub enum BackendError {
    SwitchFailed,
    CreateUnavailable,
    CreateFailed,
    RemoveUnavailable,
    RemoveFailed,
}

/// The result of the switch primitive, from its raw code.
pub fn switch_outcome(code: i32) -> (r: Result<(), BackendError>)
    ensures
        r == (if code == FAILURE_CODE {
            Err(BackendError::SwitchFailed)
        } else {
            Ok(())
        }),
{
    if code == FAILURE_CODE {
        Err(BackendError::SwitchFailed)
    } else {
        Ok(())
    }
}

/// The result of the create primitive: `None` when the backend lacks it,
/// else its raw code, which on success is the new desktop's index.
pub fn create_outcome(code: Option<i32>) -> (r: Result<i32, BackendError>)
    ensures
        r == (match code {
            None => Err(BackendError::CreateUnavailable),
            Some(c) => if c == FAILURE_CODE {
                Err(BackendError::CreateFailed)
            } else {
                Ok(c)
            },
        }),
{
    match code {
        None => Err(BackendError::CreateUnavailable),
        Some(c) => if c == FAILURE_CODE {
            Err(BackendError::CreateFailed)
        } else {
            Ok(c)
        },
    }
}

/// The result of the remove primitive: `None` when the backend lacks it,
/// else its raw code.
pub fn remove_outcome(code: Option<i32>) -> (r: Result<(), BackendError>)
    ensures
        r == (match code {
            None => Err(BackendError::RemoveUnavailable),
            Some(c) => if c == FAILURE_CODE {
                Err(BackendError::RemoveFailed)
            } else {
                Ok(())
            },
        }),
{
    match code {
        None => Err(BackendError::RemoveUnavailable),
        Some(c) => if c == FAILURE_CODE {
            Err(BackendError::RemoveFailed)
        } else {
            Ok(())
        },
    }
}

/// A one-based ordinal for showing a zero-based desktop index to a person.
pub fn display_ordinal(index: i32) -> (r: i64)
    ensures
        r == index + 1,
{
    index as i64 + 1
}

} // verus!
