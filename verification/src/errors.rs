//! Error values returned by the playback controller, the playlist store and
//! the play-by-index orchestration. Every failure is reported as a value and
//! carries the offending path or is distinguishable by variant.

use vstd::prelude::*;

verus! {

/// Failures of the audio backend while preparing a track for playback.
#[derive(Debug, Clone, PartialEq, Eq)]
pub enum AudioError {
    /// The file at the given path could not be opened.
    OpenFailed(String),
    /// The file at the given path was opened but could not be decoded.
    DecodeFailed(String),
    /// No output sink could be created.
    SinkCreationFailed,
}

/// Failures of the playback state machine itself.
#[derive(Debug, Clone, PartialEq, Eq)]
pub enum PlaybackError {
    /// `pause` was requested while no track is loaded.
    NotPlaying,
    /// `resume` was requested while no track is loaded.
    NotPaused,
}

/// Failures of the playlist store and of index resolution.
#[derive(Debug, Clone, PartialEq, Eq)]
pub enum PlaylistError {
    /// `remove` was given an index at or past the end of the sequence.
    IndexOutOfBounds,
    /// Play-by-index queried an index that resolved to no track.
    TrackNotFound,
}

} // verus!
