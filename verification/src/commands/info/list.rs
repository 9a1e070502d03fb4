//! `list`: the watched channels of a guild.

use vstd::prelude::*;
use crate::entity::channel::Model;
use crate::text::{join, join_strings, views};
use crate::ui::{Embed, EmbedField, field, fields_view, opt_view};

verus! {

/// The mention of a channel: `<#id>`.
pub open spec fn channel_mention(id: Seq<char>) -> Seq<char> {
    "<#"@ + id + ">"@
}

/// The mentions of the stored channels, one per line.
pub open spec fn channel_lines(channels: Seq<Model>) -> Seq<char> {
    join(channels.map_values(|m: Model| channel_mention(m.channel_id@)), "\n"@)
}

/// The mentions of `channels`, one per line.
pub fn channel_list(channels: &Vec<Model>) -> (s: String)
    ensures
        s@ == channel_lines(channels@),
{
    let ghost target = channels@.map_values(|m: Model| channel_mention(m.channel_id@));
    let mut lines: Vec<String> = Vec::new();
    let mut i: usize = 0;
    while i < channels.len()
        invariant
            i <= channels.len(),
            lines@.len() == i,
            target == channels@.map_values(|m: Model| channel_mention(m.channel_id@)),
            views(lines@) == target.subrange(0, i as int),
        decreases channels.len() - i,
    {
        let mut line = String::from_str("<#");
        line.append(channels[i].channel_id.as_str());
        line.append(">");
        assert(line@ == target[i as int]);
        lines.push(line);
        assert(views(lines@) =~= target.subrange(0, i + 1));
        i = i + 1;
    }
    assert(target.subrange(0, channels.len() as int) =~= target);
    join_strings(&lines, "\n")
}

/// The embed of `list`.
pub fn create_embed(channels: &Vec<Model>) -> (e: Embed)
    ensures
        opt_view(e.title) == Some("active channels"@),
        opt_view(e.description) == Some(if channels@.len() > 0 {
            "the following channels will be watched:"@
        } else {
            "currently no active channel configs are present"@
        }),
        fields_view(e.fields@) == if channels@.len() > 0 {
            seq![("channel"@, channel_lines(channels@), true)]
        } else {
            Seq::<(Seq<char>, Seq<char>, bool)>::empty()
        },
        e.footer is None,
{
    let mut fields: Vec<EmbedField> = Vec::new();
    let description = if channels.len() > 0 {
        fields.push(field(String::from_str("channel"), channel_list(channels), true));
        String::from_str("the following channels will be watched:")
    } else {
        String::from_str("currently no active channel configs are present")
    };
    let e = Embed { title: Some(String::from_str("active channels")), description: Some(description), fields, footer: None };
    assert(fields_view(e.fields@) =~= if channels@.len() > 0 {
        seq![("channel"@, channel_lines(channels@), true)]
    } else {
        Seq::<(Seq<char>, Seq<char>, bool)>::empty()
    });
    e
}

} // verus!
