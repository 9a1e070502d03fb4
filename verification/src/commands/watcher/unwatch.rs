//! `unwatch`: makes a channel no longer watched.

use vstd::prelude::*;
use crate::entity::channel::Model;
use crate::text::{decimal, parse_u64, parse_u64_spec, push_decimal};
use crate::ui::{Embed, EmbedField, field, fields_view, opt_view};

verus! {

/// The link to message `id` in `channel`, in `guild` or in private messages, as
/// Discord writes it.
pub open spec fn message_link_spec(id: u64, channel: u64, guild: Option<u64>) -> Seq<char> {
    "https://discord.com/channels/"@
        + match guild { Some(g) => decimal(g as nat), None => "@me"@ }
        + "/"@ + decimal(channel as nat) + "/"@ + decimal(id as nat)
}

/// The link to message `id` in `channel` of `guild`.
pub fn message_link(id: u64, channel: u64, guild: Option<u64>) -> (s: String)
    ensures
        s@ == message_link_spec(id, channel, guild),
{
    let mut s = String::from_str("https://discord.com/channels/");
    match guild {
        Some(g) => push_decimal(&mut s, g),
        None => s.append("@me"),
    }
    s.append("/");
    push_decimal(&mut s, channel);
    s.append("/");
    push_decimal(&mut s, id);
    s
}

/// The answer of `unwatch` for `id`, asked in `channel` of `guild`, when `found` tells
/// whether a record of `id` exists: done, or an error that links to `id` and says it is
/// not watched. An id of 0 is no Discord id, and no link can be made to it.
pub fn unwatch_save(found: bool, id: u64, channel: u64, guild: Option<u64>) -> (r: Result<(), String>)
    requires
        found || id != 0,
    ensures
        found ==> r is Ok,
        !found ==> (r matches Err(e) && e@ == message_link_spec(id, channel, guild) + " is not yet watched"@),
{
    if found {
        Ok(())
    } else {
        let mut e = message_link(id, channel, guild);
        e.append(" is not yet watched");
        Err(e)
    }
}

/// The reply of `unwatch` for `channel`.
pub fn create_embed(channel: u64) -> (e: Embed)
    ensures
        opt_view(e.title) == Some("successfully updated settings"@),
        opt_view(e.description) == Some("the following channel will no longer be watched"@),
        fields_view(e.fields@) == seq![("channel"@, "<#"@ + decimal(channel as nat) + ">"@, true)],
        e.footer is None,
{
    let mut value = String::from_str("<#");
    push_decimal(&mut value, channel);
    value.append(">");
    let mut fields: Vec<EmbedField> = Vec::new();
    fields.push(field(String::from_str("channel"), value, true));
    let e = Embed {
        title: Some(String::from_str("successfully updated settings")),
        description: Some(String::from_str("the following channel will no longer be watched")),
        fields,
        footer: None,
    };
    assert(fields_view(e.fields@) =~= seq![("channel"@, "<#"@ + decimal(channel as nat) + ">"@, true)]);
    e
}

/// A channel with the id `id` is among `channels`, given as id and name.
pub open spec fn listed(channels: Seq<(u64, String)>, id: u64) -> bool {
    exists|j: int| 0 <= j < channels.len() && (#[trigger] channels[j]).0 == id
}

/// The position of the channel `id` among `channels`.
fn position_of(channels: &Vec<(u64, String)>, id: u64) -> (k: usize)
    requires
        listed(channels@, id),
    ensures
        k < channels@.len(),
        channels@[k as int].0 == id,
{
    let mut k: usize = 0;
    while k < channels.len()
        invariant
            k <= channels@.len(),
            listed(channels@, id),
            forall|j: int| 0 <= j < k ==> (#[trigger] channels@[j]).0 != id,
        decreases channels.len() - k,
    {
        if channels[k].0 == id {
            return k;
        }
        k = k + 1;
    }
    k
}

/// The choices that `unwatch` offers: one per watched channel of the guild, in the
/// order of `connections`, named `#<channel name>` and worth the channel's id.
/// `channels` are the guild's channels, by id, as the guild's channel map lists them
/// (so each id once); every stored channel id is a number and names one of them.
pub fn unwatch_choices(connections: &Vec<Model>, channels: &Vec<(u64, String)>) -> (r: Vec<(String, u64)>)
    requires
        forall|i: int| 0 <= i < connections@.len()
            ==> (parse_u64_spec((#[trigger] connections@[i]).channel_id@) matches Some(id) && listed(channels@, id)),
    ensures
        r@.len() == connections@.len(),
        forall|i: int| 0 <= i < r@.len() ==> {
            &&& Some((#[trigger] r@[i]).1) == parse_u64_spec(connections@[i].channel_id@)
            &&& exists|j: int| 0 <= j < channels@.len() && (#[trigger] channels@[j]).0 == r@[i].1
                && r@[i].0@ == "#"@ + channels@[j].1@
        },
{
    let mut r: Vec<(String, u64)> = Vec::new();
    let mut i: usize = 0;
    while i < connections.len()
        invariant
            i <= connections@.len(),
            r@.len() == i,
            forall|i: int| 0 <= i < connections@.len()
                ==> (parse_u64_spec((#[trigger] connections@[i]).channel_id@) matches Some(id) && listed(channels@, id)),
            forall|k: int| 0 <= k < i ==> {
                &&& Some((#[trigger] r@[k]).1) == parse_u64_spec(connections@[k].channel_id@)
                &&& exists|j: int| 0 <= j < channels@.len() && (#[trigger] channels@[j]).0 == r@[k].1
                    && r@[k].0@ == "#"@ + channels@[j].1@
            },
        decreases connections.len() - i,
    {
        let id = match parse_u64(connections[i].channel_id.as_str()) {
            Some(id) => id,
            None => {
                proof {
                    assert(false);
                }
                0
            },
        };
        let k = position_of(channels, id);
        let mut name = String::from_str("#");
        name.append(channels[k].1.as_str());
        r.push((name, id));
        i = i + 1;
    }
    r
}

} // verus!
