//! The application-level error taxonomy and the editing-dialog states the
//! event consumers distinguish.

use crate::input::ThreadError;
use vstd::prelude::*;

verus! {

/// Everything that can go wrong around the event loop. Transient device
/// and decode failures are surfaced as these and logged, never fatal;
/// thread-coordination failures carry the [`ThreadError`] that named the
/// lock.
#[derive(Clone, Debug, PartialEq, Eq)]
pub enum AppError {
    GetCounterError(String),
    GetPhaseError,
    DevIoError(String),
    IoError(String),
    SettingNotFound,
    InputThread,
    ThreadError(ThreadError),
    ImpossibleState(String),
    ScreenSize(String),
    DialogAlreadyOpen(String),
    EventEmpty(String),
    SettingsType(String),
}

impl From<ThreadError> for AppError {
    fn from(value: ThreadError) -> (r: Self) {
        AppError::ThreadError(value)
    }
}

impl vstd::std_specs::convert::FromSpecImpl<ThreadError> for AppError {
    open spec fn obeys_from_spec() -> bool {
        true
    }

    open spec fn from_spec(v: ThreadError) -> Self {
        AppError::ThreadError(v)
    }
}

/// Which field of a counter an editing dialog is changing.
#[derive(Clone, Copy, Debug, PartialEq, Eq, Structural)]
pub enum EditingState {
    Rename,
    ChCount,
    ChTime,
}

} // verus!
