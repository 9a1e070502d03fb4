//! Guild settings.

use vstd::prelude::*;
use crate::text::{decimal, decimal_string};

verus! {

/// The settings of a guild.
pub struct Model {
    pub id: String,
    pub active: bool,
    pub retain_messages: bool,
    pub oauth: bool,
    pub hide_user: bool,
    pub hide_deletion_info: bool,
}

/// The fields of a guild to write.
pub struct ActiveModel {
    pub id: String,
    pub active: bool,
    pub retain_messages: bool,
    pub oauth: bool,
    /// `None` leaves the stored value, or its default `false`, in place.
    pub hide_user: Option<bool>,
    /// `None` leaves the stored value, or its default `false`, in place.
    pub hide_deletion_info: Option<bool>,
}

impl ActiveModel {
    /// The record written before every command: the guild, not active, keeping messages,
    /// without OAuth. Inserting it fails harmlessly when the guild is already stored.
    pub fn register(guild_id: u64) -> (m: Self)
        ensures
            m.id@ == decimal(guild_id as nat),
            !m.active,
            m.retain_messages,
            !m.oauth,
            m.hide_user is None,
            m.hide_deletion_info is None,
    {
        ActiveModel {
            id: decimal_string(guild_id),
            active: false,
            retain_messages: true,
            oauth: false,
            hide_user: None,
            hide_deletion_info: None,
        }
    }

    /// The record that sets every setting of `guild_id`.
    pub fn update_guild(guild_id: u64, active: bool, retain_messages: bool, oauth: bool,
        hide_user: bool, hide_deletion_info: bool) -> (m: Self)
        ensures
            m.id@ == decimal(guild_id as nat),
            m.active == active,
            m.retain_messages == retain_messages,
            m.oauth == oauth,
            m.hide_user == Some(hide_user),
            m.hide_deletion_info == Some(hide_deletion_info),
    {
        ActiveModel {
            id: decimal_string(guild_id),
            active,
            retain_messages,
            oauth,
            hide_user: Some(hide_user),
            hide_deletion_info: Some(hide_deletion_info),
        }
    }

    /// The record that sets the activation of `guild` and keeps its other settings.
    pub fn with_active(guild_id: u64, guild: &Model, active: bool) -> (m: Self)
        ensures
            m.id@ == decimal(guild_id as nat),
            m.active == active,
            m.retain_messages == guild.retain_messages,
            m.oauth == guild.oauth,
            m.hide_user == Some(guild.hide_user),
            m.hide_deletion_info == Some(guild.hide_deletion_info),
    {
        Self::update_guild(guild_id, active, guild.retain_messages, guild.oauth,
            guild.hide_user, guild.hide_deletion_info)
    }
}

} // verus!
