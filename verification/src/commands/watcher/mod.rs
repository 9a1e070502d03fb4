//! Watching and unwatching channels.

pub mod unwatch;
pub mod watch;
