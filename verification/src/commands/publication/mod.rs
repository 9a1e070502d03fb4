//! Publishing stories.

pub mod mastodon;
