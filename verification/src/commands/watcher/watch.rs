//! `watch`: makes a channel watched.

use vstd::prelude::*;
use crate::entity::channel::{ActiveModel, Channel, Column, Model, Select};
use crate::text::decimal;
use crate::commands::info::list::{channel_lines, channel_list};
use crate::ui::{Embed, EmbedField, field, fields_view, opt_view};

verus! {

/// The query that counts the records of `channel` in `guild_id`.
pub fn watched_query(guild_id: u64, channel: u64) -> (q: Select)
    ensures
        q.column == Column::GuildId,
        q.value@ == decimal(guild_id as nat),
        q.also matches Some(v) && v@ == decimal(channel as nat),
{
    Channel::find_by_guild(guild_id).also_equal(channel)
}

/// What `watch` writes: the record of the channel when it is not yet watched (`count`
/// records of it exist), nothing otherwise.
pub fn watch_save(guild_id: u64, channel: u64, count: u64) -> (r: Option<ActiveModel>)
    ensures
        r is Some <==> count == 0,
        r matches Some(m) ==> m.guild_id@ == decimal(guild_id as nat) && m.channel_id@ == decimal(channel as nat),
{
    if count == 0 {
        Some(ActiveModel::update_channel(guild_id, channel))
    } else {
        None
    }
}

/// The reply of `watch`: whether anything changed, and the watched channels.
pub fn create_embed(updated: bool, channels: &Vec<Model>) -> (e: Embed)
    ensures
        opt_view(e.title) == Some(if updated { "successfully updated settings"@ } else { "nothing to change"@ }),
        opt_view(e.description) == Some("The following channels will be watched:"@),
        fields_view(e.fields@) == seq![("channel"@, channel_lines(channels@), true)],
        e.footer is None,
{
    let title = if updated {
        String::from_str("successfully updated settings")
    } else {
        String::from_str("nothing to change")
    };
    let mut fields: Vec<EmbedField> = Vec::new();
    fields.push(field(String::from_str("channel"), channel_list(channels), true));
    let e = Embed {
        title: Some(title),
        description: Some(String::from_str("The following channels will be watched:")),
        fields,
        footer: None,
    };
    assert(fields_view(e.fields@) =~= seq![("channel"@, channel_lines(channels@), true)]);
    e
}

} // verus!
