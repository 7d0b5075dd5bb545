//! The playback state machine: at most one active output sink, and a
//! recorded current path exactly when a sink exists. The audio backend
//! itself (file opening, decoding, the output device) lives outside this
//! crate; its outcomes and observations are handed in as plain values, and
//! every decision taken on them is verified here.

use vstd::prelude::*;

use crate::errors::AudioError;
use crate::errors::PlaybackError;

verus! {

/// What the playback controller knows of the backend sink it owns: whether
/// it is paused, and how many queued sources it was last seen holding.
#[derive(Debug, Clone, Copy, PartialEq, Eq, Structural)]
pub struct SinkState {
    pub paused: bool,
    pub queued_len: usize,
}

/// The outcome of asking the audio backend to prepare a source for a path:
/// either a decoded source sits appended to a fresh, playing sink, or the
/// step that refused is named.
#[derive(Debug, Clone, Copy, PartialEq, Eq, Structural)]
pub enum BackendOutcome {
    /// The file was opened, decoded, and queued on a newly created sink.
    SourceReady,
    /// The file could not be opened.
    OpenRefused,
    /// The file was opened but could not be decoded.
    DecodeRefused,
    /// No output sink could be created.
    SinkRefused,
}

/// A consistent snapshot of the controller: both flags are false when idle.
#[derive(Debug, PartialEq, Eq)]
pub struct PlaybackStatus {
    pub is_playing: bool,
    pub is_paused: bool,
    pub current_path: Option<String>,
}

/// The playback session: the single active sink, if any, and the path of
/// the currently loaded track, if any. The core invariant is that the two
/// are present or absent together.
pub struct AudioPlayer {
    pub sink: Option<SinkState>,
    pub current_path: Option<String>,
}

impl AudioPlayer {
    /// The core correctness property: a current path is recorded exactly
    /// when a sink exists — no orphaned path, no anonymous sink.
    pub open spec fn consistent(self) -> bool {
        self.sink is Some <==> self.current_path is Some
    }

    /// Idle: no sink and no recorded path.
    pub open spec fn is_idle(self) -> bool {
        self.sink is None && self.current_path is None
    }

    /// A sink exists, is not paused, and was last seen with queued audio.
    pub open spec fn spec_is_playing(self) -> bool {
        match self.sink {
            Some(s) => !s.paused && s.queued_len > 0,
            None => false,
        }
    }

    /// A sink exists and is paused.
    pub open spec fn spec_is_paused(self) -> bool {
        match self.sink {
            Some(s) => s.paused,
            None => false,
        }
    }

    /// The session a `stop` leaves behind, whatever it found: idle.
    pub open spec fn spec_stop(self) -> AudioPlayer {
        AudioPlayer { sink: None, current_path: None }
    }

    /// A fresh controller: idle.
    pub fn new() -> (p: AudioPlayer)
        ensures
            p.is_idle(),
            p.consistent(),
    {
        AudioPlayer { sink: None, current_path: None }
    }

    /// Load `path`: any prior sink is discarded unconditionally, and the
    /// backend's outcome for the new source decides the rest. On success
    /// the session holds a fresh, unpaused sink with one queued source and
    /// records `path`; on any failure it ends idle — never half
    /// initialized — and the error names the offending path.
    pub fn play(&mut self, path: String, outcome: BackendOutcome) -> (r: Result<(), AudioError>)
        ensures
            final(self).consistent(),
            outcome is SourceReady ==> r is Ok,
            outcome is SourceReady ==> final(self).sink == Some(
                SinkState { paused: false, queued_len: 1 },
            ),
            outcome is SourceReady ==> final(self).current_path == Some(path),
            outcome is OpenRefused ==> r == Err::<(), AudioError>(AudioError::OpenFailed(path)),
            outcome is DecodeRefused ==> r == Err::<(), AudioError>(AudioError::DecodeFailed(path)),
            outcome is SinkRefused ==> r == Err::<(), AudioError>(AudioError::SinkCreationFailed),
            !(outcome is SourceReady) ==> final(self).is_idle(),
    {
        self.sink = None;
        self.current_path = None;
        match outcome {
            BackendOutcome::SourceReady => {
                self.sink = Some(SinkState { paused: false, queued_len: 1 });
                self.current_path = Some(path);
                Ok(())
            },
            BackendOutcome::OpenRefused => Err(AudioError::OpenFailed(path)),
            BackendOutcome::DecodeRefused => Err(AudioError::DecodeFailed(path)),
            BackendOutcome::SinkRefused => Err(AudioError::SinkCreationFailed),
        }
    }

    /// Pause the existing sink in place; the sink and the recorded path are
    /// retained. With no sink, refuse with `NotPlaying` and change nothing.
    pub fn pause(&mut self) -> (r: Result<(), PlaybackError>)
        ensures
            old(self).sink is Some ==> r is Ok,
            old(self).sink is Some ==> final(self).sink == Some(
                SinkState { paused: true, queued_len: old(self).sink->Some_0.queued_len },
            ),
            old(self).sink is None ==> r == Err::<(), PlaybackError>(PlaybackError::NotPlaying),
            old(self).sink is None ==> *final(self) == *old(self),
            final(self).current_path == old(self).current_path,
            old(self).consistent() ==> final(self).consistent(),
    {
        match self.sink {
            Some(s) => {
                self.sink = Some(SinkState { paused: true, queued_len: s.queued_len });
                Ok(())
            },
            None => Err(PlaybackError::NotPlaying),
        }
    }

    /// Resume the existing sink; the sink and the recorded path are
    /// retained, and resuming an already playing sink is a harmless no-op.
    /// With no sink, refuse with `NotPaused` and change nothing.
    pub fn resume(&mut self) -> (r: Result<(), PlaybackError>)
        ensures
            old(self).sink is Some ==> r is Ok,
            old(self).sink is Some ==> final(self).sink == Some(
                SinkState { paused: false, queued_len: old(self).sink->Some_0.queued_len },
            ),
            old(self).sink is None ==> r == Err::<(), PlaybackError>(PlaybackError::NotPaused),
            old(self).sink is None ==> *final(self) == *old(self),
            final(self).current_path == old(self).current_path,
            old(self).consistent() ==> final(self).consistent(),
    {
        match self.sink {
            Some(s) => {
                self.sink = Some(SinkState { paused: false, queued_len: s.queued_len });
                Ok(())
            },
            None => Err(PlaybackError::NotPaused),
        }
    }

    /// Discard the sink, if any, and clear the recorded path. Always
    /// succeeds; stopping an already idle session is a no-op, not an error.
    pub fn stop(&mut self) -> (r: Result<(), PlaybackError>)
        ensures
            r is Ok,
            *final(self) == old(self).spec_stop(),
            final(self).is_idle(),
            final(self).consistent(),
    {
        self.sink = None;
        self.current_path = None;
        Ok(())
    }

    /// Whether a sink exists, is not paused, and was last seen holding
    /// queued audio.
    pub fn is_playing(&self) -> (b: bool)
        ensures
            b == self.spec_is_playing(),
    {
        match self.sink {
            Some(s) => !s.paused && s.queued_len > 0,
            None => false,
        }
    }

    /// Whether a sink exists and is paused.
    pub fn is_paused(&self) -> (b: bool)
        ensures
            b == self.spec_is_paused(),
    {
        match self.sink {
            Some(s) => s.paused,
            None => false,
        }
    }

    /// A copy of the currently recorded path, if any.
    pub fn get_current_path(&self) -> (r: Option<String>)
        ensures
            r == self.current_path,
    {
        match &self.current_path {
            Some(p) => Some(p.clone()),
            None => None,
        }
    }

    /// A consistent snapshot of the whole session, taken in one reading:
    /// both flags are false when idle.
    pub fn status(&self) -> (st: PlaybackStatus)
        ensures
            st.is_playing == self.spec_is_playing(),
            st.is_paused == self.spec_is_paused(),
            st.current_path == self.current_path,
            self.is_idle() ==> !st.is_playing && !st.is_paused,
    {
        PlaybackStatus {
            is_playing: self.is_playing(),
            is_paused: self.is_paused(),
            current_path: self.get_current_path(),
        }
    }

    /// Record what the backend's sink reports right now: whether it is
    /// paused and how much it still holds queued. With no sink the report
    /// is meaningless and nothing changes. The recorded path is untouched
    /// either way.
    pub fn observe_sink(&mut self, paused: bool, queued_len: usize)
        ensures
            old(self).sink is Some ==> final(self).sink == Some(SinkState { paused, queued_len }),
            old(self).sink is None ==> *final(self) == *old(self),
            final(self).current_path == old(self).current_path,
            old(self).consistent() ==> final(self).consistent(),
    {
        if self.sink.is_some() {
            self.sink = Some(SinkState { paused, queued_len });
        }
    }
}

/// Stopping is idempotent: a second `stop` finds the session already idle
/// and leaves it exactly as the first left it.
pub proof fn lemma_stop_idempotent(p: AudioPlayer)
    ensures
        p.spec_stop().spec_stop() == p.spec_stop(),
        p.spec_stop().is_idle(),
{
}

} // verus!
