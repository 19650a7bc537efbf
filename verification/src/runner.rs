//! How a run of the whole application ends.
//!
//! The platform loop holds the main thread until it returns. Then the logic
//! thread is joined, and the two outcomes together decide what the caller is
//! told.

use vstd::prelude::*;
use crate::io::IOError;

verus! {

/// How the wait for the logic thread ended.
#[derive(Clone, Copy, Debug, PartialEq, Eq, Structural)]
pub enum JoinOutcome {
    /// The thread returned.
    Joined,
    /// The thread panicked.
    Panicked,
    /// There was no thread to wait for.
    NoHandle,
}

/// Why a run of the application failed.
#[derive(Clone, Debug, PartialEq, Eq)]
pub enum PantheonError {
    /// A platform loop exists already in this process.
    DuplicateApplicationNotAllowed,
    /// The platform failed, with its description.
    PlatformError(String),
    /// The application's logic crashed. This is told apart from a failure of
    /// the platform, and goes before it.
    LogicThreadPanicked,
}

impl PantheonError {
    /// The error of a run whose platform loop failed with `error`.
    pub open spec fn of_io(error: IOError) -> PantheonError {
        match error {
            IOError::DuplicateApplicationNotAllowed => {
                PantheonError::DuplicateApplicationNotAllowed
            },
            IOError::EventLoopError(detail) => PantheonError::PlatformError(detail),
        }
    }

    /// The error of a run whose platform loop failed with `error`.
    pub fn from_io(error: IOError) -> (mapped: PantheonError)
        ensures
            mapped == PantheonError::of_io(error),
    {
        match error {
            IOError::DuplicateApplicationNotAllowed => {
                PantheonError::DuplicateApplicationNotAllowed
            },
            IOError::EventLoopError(detail) => PantheonError::PlatformError(detail),
        }
    }
}

/// What a run comes to, given how the platform loop and the wait for the logic
/// thread ended.
pub open spec fn run_result(start: Result<(), IOError>, join: JoinOutcome) -> Result<
    (),
    PantheonError,
> {
    if join == JoinOutcome::Panicked {
        Err(PantheonError::LogicThreadPanicked)
    } else {
        match start {
            Ok(_) => Ok(()),
            Err(error) => Err(PantheonError::of_io(error)),
        }
    }
}

/// Decides what the caller of a run is told. A logic thread that panicked is
/// reported whatever the platform loop did; otherwise the platform loop's
/// error is passed on, and a run without either succeeded.
pub fn conclude(start: Result<(), IOError>, join: JoinOutcome) -> (result: Result<
    (),
    PantheonError,
>)
    ensures
        result == run_result(start, join),
{
    match join {
        JoinOutcome::Panicked => Err(PantheonError::LogicThreadPanicked),
        _ => match start {
            Ok(_) => Ok(()),
            Err(error) => Err(PantheonError::from_io(error)),
        },
    }
}

} // verus!
