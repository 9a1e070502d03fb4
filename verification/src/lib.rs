//! Verified core of the OneWord story bot: message rules, story summaries,
//! configuration views and the OAuth flow decisions.

pub mod text;
pub mod env;
pub mod oauth;
pub mod patterns;
pub mod ui;
pub mod story;
pub mod entity;
pub mod commands;
pub mod events;
