//! The `configure` command and its subcommands.

pub mod footer;
pub mod mastodon;
