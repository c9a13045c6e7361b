//! A status-bar block that reports the audio output volume and mute state.
//!
//! The library holds the block's state, the parser of the mixer's status line,
//! the icon and text rules, and the retry policy of the poller. Running the
//! mixer command and sleeping between attempts are left to the caller.
pub mod laws;
pub mod poller;
pub mod status;
pub mod volume;
