//! Stored OAuth tokens.

use vstd::prelude::*;
use crate::text::{decimal, decimal_string};

verus! {

/// A stored OAuth token of a guild for one provider.
pub struct Model {
    pub guild_id: String,
    pub name: String,
    pub active: bool,
    pub instance: String,
    pub data: String,
}

/// The fields of a token record to write.
pub struct ActiveModel {
    pub guild_id: String,
    pub name: String,
    pub active: bool,
    pub instance: String,
    pub data: String,
}

impl ActiveModel {
    /// The record of a new token.
    pub fn create_oauth(guild_id: u64, name: String, active: bool, instance: String, data: String) -> (m: Self)
        ensures
            m.guild_id@ == decimal(guild_id as nat),
            m.name@ == name@,
            m.active == active,
            m.instance@ == instance@,
            m.data@ == data@,
    {
        ActiveModel { guild_id: decimal_string(guild_id), name, active, instance, data }
    }
}

/// The column a query filters on.
#[derive(PartialEq, Eq, Structural, Clone, Copy)]
pub enum Column {
    GuildId,
    Name,
    Instance,
}

/// A query for the tokens whose `column` equals `value`, and, when `name` is given,
/// whose name is `name` too.
pub struct Select {
    pub column: Column,
    pub value: String,
    pub name: Option<String>,
}

impl Select {
    /// Whether the query selects `m`.
    pub open spec fn selects(&self, m: Model) -> bool {
        &&& match self.column {
            Column::GuildId => m.guild_id@ == self.value@,
            Column::Name => m.name@ == self.value@,
            Column::Instance => m.instance@ == self.value@,
        }
        &&& match self.name {
            Some(n) => m.name@ == n@,
            None => true,
        }
    }

    /// The same query, narrowed to tokens called `name`.
    pub fn with_name(self, name: String) -> (q: Select)
        ensures
            q.column == self.column,
            q.value@ == self.value@,
            q.name matches Some(n) && n@ == name@,
    {
        Select { column: self.column, value: self.value, name: Some(name) }
    }
}

/// The table of tokens.
pub struct Oauth;

impl Oauth {
    /// The tokens of `guild`.
    pub fn find_by_guild(guild: u64) -> (q: Select)
        ensures
            q.column == Column::GuildId,
            q.value@ == decimal(guild as nat),
            q.name is None,
    {
        Select { column: Column::GuildId, value: decimal_string(guild), name: None }
    }

    /// The tokens of the provider `name`.
    pub fn find_by_name(name: String) -> (q: Select)
        ensures
            q.column == Column::Name,
            q.value@ == name@,
            q.name is None,
    {
        Select { column: Column::Name, value: name, name: None }
    }

    /// The tokens for `instance`.
    pub fn find_by_instance(instance: String) -> (q: Select)
        ensures
            q.column == Column::Instance,
            q.value@ == instance@,
            q.name is None,
    {
        Select { column: Column::Instance, value: instance, name: None }
    }
}

/// What `oauth_safe` answers: the guild's token, or the error it reports when there is
/// none.
pub fn oauth_safe(found: Option<Model>) -> (r: Result<Model, String>)
    ensures
        found is Some ==> r == Ok::<Model, String>(found->0),
        found is None ==> (r matches Err(e) && e@ == "failed to retrieve guild"@),
{
    match found {
        Some(m) => Ok(m),
        None => Err(String::from_str("failed to retrieve guild")),
    }
}

} // verus!
