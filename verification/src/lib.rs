//! A verified core for a terminal audio player.
//!
//! The player's hard logic — playlist navigation, the playback control state
//! machine, the pause-aware timing model, the preload result protocol and
//! display-width-aware status formatting — lives here with contracts proved
//! by Verus. Audio decoding, the output sink, the terminal and the keyboard
//! are external collaborators driven by a thin unverified shell.

pub mod player;
pub mod playlist;
pub mod preload;
pub mod status;
pub mod text;
pub mod timing;
pub mod width;
