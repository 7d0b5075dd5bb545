//! Backend state layer of a desktop media player: a verified playback-state
//! machine (at most one active sink, and a recorded track path exactly when a
//! sink exists) and a verified in-memory playlist with index-addressed
//! operations and derived display names.

pub mod errors;
pub mod player;
pub mod playlist;
