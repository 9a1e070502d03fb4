//! The stored records: guilds, watched channels and OAuth tokens, and the queries the
//! bot runs on them. Ids are stored as decimal text.

pub mod channel;
pub mod guild;
pub mod oauth;
