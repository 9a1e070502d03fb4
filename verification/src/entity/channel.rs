//! Watched channels.

use vstd::prelude::*;
use crate::text::{decimal, decimal_string, lemma_decimal_injective};

verus! {

/// A stored watched channel.
pub struct Model {
    pub guild_id: String,
    pub channel_id: String,
}

/// The fields of a watched channel to write.
pub struct ActiveModel {
    pub guild_id: String,
    pub channel_id: String,
}

impl ActiveModel {
    /// The record that makes `channel` of `guild` watched.
    pub fn update_channel(guild: u64, channel: u64) -> (m: Self)
        ensures
            m.guild_id@ == decimal(guild as nat),
            m.channel_id@ == decimal(channel as nat),
    {
        ActiveModel { guild_id: decimal_string(guild), channel_id: decimal_string(channel) }
    }
}

/// The column a query filters on.
#[derive(PartialEq, Eq, Structural, Clone, Copy)]
pub enum Column {
    GuildId,
    ChannelId,
}

/// A query for the channels whose `column` equals `value`, and whose other column
/// equals `also` when it is given.
pub struct Select {
    pub column: Column,
    pub value: String,
    pub also: Option<String>,
}

/// The value of `column` in `m`.
pub open spec fn column_value(m: Model, column: Column) -> Seq<char> {
    match column {
        Column::GuildId => m.guild_id@,
        Column::ChannelId => m.channel_id@,
    }
}

/// The other column.
pub open spec fn other(column: Column) -> Column {
    match column {
        Column::GuildId => Column::ChannelId,
        Column::ChannelId => Column::GuildId,
    }
}

impl Select {
    /// Whether the query selects `m`.
    pub open spec fn selects(&self, m: Model) -> bool {
        &&& column_value(m, self.column) == self.value@
        &&& match self.also {
            Some(v) => column_value(m, other(self.column)) == v@,
            None => true,
        }
    }

    /// The same query, narrowed to the records whose other column is `id`.
    pub fn also_equal(self, id: u64) -> (q: Select)
        ensures
            q.column == self.column,
            q.value@ == self.value@,
            q.also matches Some(v) && v@ == decimal(id as nat),
    {
        Select { column: self.column, value: self.value, also: Some(decimal_string(id)) }
    }
}

/// The table of watched channels.
pub struct Channel;

impl Channel {
    /// The channels watched in `guild`.
    pub fn find_by_guild(guild: u64) -> (q: Select)
        ensures
            q.column == Column::GuildId,
            q.value@ == decimal(guild as nat),
            q.also is None,
    {
        Select { column: Column::GuildId, value: decimal_string(guild), also: None }
    }

    /// The records of `channel`.
    pub fn find_by_channel(channel: u64) -> (q: Select)
        ensures
            q.column == Column::ChannelId,
            q.value@ == decimal(channel as nat),
            q.also is None,
    {
        Select { column: Column::ChannelId, value: decimal_string(channel), also: None }
    }
}

/// A query by id selects exactly the records written for that id: a record stored
/// by `update_channel` for guild `stored_guild` and channel `stored_channel` is selected
/// by the query for guild `guild` (narrowed to channel `channel` when asked) exactly when
/// the ids agree.
pub proof fn lemma_query_by_id_is_exact(q: Select, guild: u64, channel: Option<u64>, m: Model,
    stored_guild: u64, stored_channel: u64)
    requires
        q.column == Column::GuildId,
        q.value@ == decimal(guild as nat),
        match channel {
            Some(c) => q.also matches Some(v) && v@ == decimal(c as nat),
            None => q.also is None,
        },
        m.guild_id@ == decimal(stored_guild as nat),
        m.channel_id@ == decimal(stored_channel as nat),
    ensures
        q.selects(m) <==> (guild == stored_guild && match channel {
            Some(c) => c == stored_channel,
            None => true,
        }),
{
    lemma_decimal_injective(guild, stored_guild);
    if let Some(c) = channel {
        lemma_decimal_injective(c, stored_channel);
    }
}

/// The query for a channel selects exactly the records written for that channel.
pub proof fn lemma_channel_query_is_exact(q: Select, channel: u64, m: Model, stored_channel: u64)
    requires
        q.column == Column::ChannelId,
        q.value@ == decimal(channel as nat),
        q.also is None,
        m.channel_id@ == decimal(stored_channel as nat),
    ensures
        q.selects(m) <==> channel == stored_channel,
{
    lemma_decimal_injective(channel, stored_channel);
}

} // verus!
