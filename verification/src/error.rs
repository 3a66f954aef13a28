//! The errors that the recorder reports.

use vstd::prelude::*;

verus! {

/// Why an operation of the recorder failed. Every failure is returned to
/// the caller; the recorder stays usable after any of them.
#[derive(Debug, Clone, PartialEq, Eq)]
pub enum RecorderError {
    /// Recording was started before a target was bound.
    NoProcessSpecified,
    /// Recording was stopped while no engine was active.
    NoRecorderBound,
    /// Recording was started while an engine was already active.
    AlreadyRecording,
    /// The recording engine could not be constructed; the text describes
    /// the cause as the engine reported it.
    FailedToStart(String),
    /// A failure of the encoder catalog or of the media subsystem.
    Generic(String),
}

/// The mathematical content of a [`RecorderError`].
pub enum RecorderFailure {
    NoProcessSpecified,
    NoRecorderBound,
    AlreadyRecording,
    FailedToStart(Seq<char>),
    Generic(Seq<char>),
}

impl View for RecorderError {
    type V = RecorderFailure;

    open spec fn view(&self) -> RecorderFailure {
        match self {
            RecorderError::NoProcessSpecified => RecorderFailure::NoProcessSpecified,
            RecorderError::NoRecorderBound => RecorderFailure::NoRecorderBound,
            RecorderError::AlreadyRecording => RecorderFailure::AlreadyRecording,
            RecorderError::FailedToStart(detail) => RecorderFailure::FailedToStart(detail@),
            RecorderError::Generic(detail) => RecorderFailure::Generic(detail@),
        }
    }
}

} // verus!
