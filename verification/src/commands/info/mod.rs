//! The informational commands.

pub mod list;
