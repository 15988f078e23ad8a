//! The source capability and playback errors.

use vstd::prelude::*;

verus! {

/// Playback errors.
///
/// Opening a single source can fail ([`StreamError::SourceOpenError`]); a
/// lane gives up only after every one of its tracks has failed to open
/// ([`StreamError::AllTracksFailed`]).
#[derive(Clone, Copy, Debug, PartialEq, Eq, Structural)]
pub enum StreamError {
    SourceOpenError,
    AllTracksFailed,
}

/// A capability producing decoded audio on demand.
///
/// The engine never decodes audio itself: it asks the capability to open its
/// recording and, on success, learns the total duration in milliseconds
/// (zero when the backend cannot tell).  The surrounding application
/// implements this trait over its actual audio backend; nothing is promised
/// about the outcome of `open`, and the engine states what holds of its own
/// state whatever comes back.
pub trait Source: Sized {
    /// Open (decode) the recording; `Ok` carries its duration in
    /// milliseconds.
    fn open(&self) -> Result<u64, StreamError>;

    /// A display title for the recording.
    fn title(&self) -> String;
}

} // verus!
