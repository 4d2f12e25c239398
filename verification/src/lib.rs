//! Core logic of a terminal music player: list navigation, the playback
//! state machine, and the translation of key events into commands. The
//! surrounding binary owns the terminal and the audio device; everything
//! that decides what happens next lives here.

pub mod audio;
pub mod control;
pub mod input;
pub mod selection;
