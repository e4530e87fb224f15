//! Playback coordination for a local music player: the song library built from a
//! directory walk, the queue and the stopped / paused / playing state machine, and the
//! bookkeeping of the ticker that refreshes the elapsed time.

pub mod library;
pub mod playback;
pub mod timekeeper;
