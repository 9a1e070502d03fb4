//! `configure footer`: the buttons that show or hide parts of the summary footer.

use vstd::prelude::*;
use crate::entity::guild::Model;
use crate::text::{decimal, push_decimal};
use crate::ui::{Button, ButtonStyle, Embed, EmbedField, field, fields_view, opt_view};

verus! {

/// Marks a shown part.
pub open spec fn shown_mark() -> Seq<char> {
    "\u{2705}"@
}

/// The fields of the footer settings embed.
pub open spec fn footer_fields_spec(hide_user: bool, hide_deletion_info: bool) -> Seq<(Seq<char>, Seq<char>, bool)> {
    seq![
        ("Display users in the Footer"@, if hide_user { "\u{274e} "@ } else { shown_mark() }, false),
        ("Display if original messages will be deleted"@,
            if hide_deletion_info { "\u{274e}"@ } else { shown_mark() }, false),
    ]
}

/// The embed that shows the footer settings of `guild`.
pub fn create_embed(guild: &Model) -> (e: Embed)
    ensures
        opt_view(e.title) == Some("Configure Endgame Footer"@),
        opt_view(e.description) == Some("Click on one of the buttons to change the settings."@),
        fields_view(e.fields@) == footer_fields_spec(guild.hide_user, guild.hide_deletion_info),
        e.footer is None,
{
    let user_value = if guild.hide_user { String::from_str("\u{274e} ") } else { String::from_str("\u{2705}") };
    let deletion_value = if guild.hide_deletion_info { String::from_str("\u{274e}") } else { String::from_str("\u{2705}") };
    let mut fields: Vec<EmbedField> = Vec::new();
    fields.push(field(String::from_str("Display users in the Footer"), user_value, false));
    fields.push(field(String::from_str("Display if original messages will be deleted"), deletion_value, false));
    let e = Embed {
        title: Some(String::from_str("Configure Endgame Footer")),
        description: Some(String::from_str("Click on one of the buttons to change the settings.")),
        fields,
        footer: None,
    };
    assert(fields_view(e.fields@) =~= footer_fields_spec(guild.hide_user, guild.hide_deletion_info));
    e
}

/// The id of the button that toggles the user display, for the interaction `uuid`.
pub open spec fn toggle_user_id_spec(uuid: u64) -> Seq<char> {
    "toggle_user_"@ + decimal(uuid as nat)
}

/// The id of the button that toggles the deletion notice, for the interaction `uuid`.
pub open spec fn toggle_delete_id_spec(uuid: u64) -> Seq<char> {
    "toggle_delete_"@ + decimal(uuid as nat)
}

/// `toggle_user_<uuid>`.
pub fn toggle_user_id(uuid: u64) -> (s: String)
    ensures
        s@ == toggle_user_id_spec(uuid),
{
    let mut s = String::from_str("toggle_user_");
    push_decimal(&mut s, uuid);
    s
}

/// `toggle_delete_<uuid>`.
pub fn toggle_delete_id(uuid: u64) -> (s: String)
    ensures
        s@ == toggle_delete_id_spec(uuid),
{
    let mut s = String::from_str("toggle_delete_");
    push_decimal(&mut s, uuid);
    s
}

/// The two buttons: one that hides or shows the user, one that hides or shows the
/// deletion notice; each labelled with what a click does.
pub fn create_components(guild: &Model, uuid: u64) -> (buttons: Vec<Button>)
    ensures
        buttons@.len() == 2,
        opt_view(buttons@[0].custom_id) == Some(toggle_user_id_spec(uuid)),
        buttons@[0].url is None,
        buttons@[0].label@ == if !guild.hide_user { "Hide User"@ } else { "Show User"@ },
        buttons@[0].style == ButtonStyle::Primary,
        !buttons@[0].disabled,
        opt_view(buttons@[1].custom_id) == Some(toggle_delete_id_spec(uuid)),
        buttons@[1].url is None,
        buttons@[1].label@ == if !guild.hide_deletion_info { "Hide Deletion Info"@ } else { "Show Deletion Info"@ },
        buttons@[1].style == ButtonStyle::Primary,
        !buttons@[1].disabled,
{
    let user_label = if !guild.hide_user { String::from_str("Hide User") } else { String::from_str("Show User") };
    let delete_label = if !guild.hide_deletion_info {
        String::from_str("Hide Deletion Info")
    } else {
        String::from_str("Show Deletion Info")
    };
    let mut buttons: Vec<Button> = Vec::new();
    buttons.push(Button {
        custom_id: Some(toggle_user_id(uuid)),
        url: None,
        label: user_label,
        style: ButtonStyle::Primary,
        disabled: false,
    });
    buttons.push(Button {
        custom_id: Some(toggle_delete_id(uuid)),
        url: None,
        label: delete_label,
        style: ButtonStyle::Primary,
        disabled: false,
    });
    buttons
}

/// The settings after a click on the button `custom_id`; `None` when the id belongs to
/// neither button of the interaction `uuid`, so the click is ignored.
pub open spec fn toggled_spec(guild: Model, custom_id: Seq<char>, uuid: u64) -> Option<(bool, bool)> {
    if custom_id == toggle_user_id_spec(uuid) {
        Some((!guild.hide_user, guild.hide_deletion_info))
    } else if custom_id == toggle_delete_id_spec(uuid) {
        Some((guild.hide_user, !guild.hide_deletion_info))
    } else {
        None
    }
}

/// A copy of the settings.
pub fn copy_model(guild: &Model) -> (m: Model)
    ensures
        m.id@ == guild.id@,
        m.active == guild.active,
        m.retain_messages == guild.retain_messages,
        m.oauth == guild.oauth,
        m.hide_user == guild.hide_user,
        m.hide_deletion_info == guild.hide_deletion_info,
{
    Model {
        id: guild.id.clone(),
        active: guild.active,
        retain_messages: guild.retain_messages,
        oauth: guild.oauth,
        hide_user: guild.hide_user,
        hide_deletion_info: guild.hide_deletion_info,
    }
}

/// Handles a click on a button of the footer settings message of the interaction
/// `uuid`: flips the setting of that button and keeps the rest.
pub fn apply_interaction(guild: &Model, custom_id: &String, uuid: u64) -> (r: Option<Model>)
    ensures
        match toggled_spec(*guild, custom_id@, uuid) {
            None => r is None,
            Some((hide_user, hide_deletion_info)) => r matches Some(m) && {
                &&& m.id@ == guild.id@
                &&& m.active == guild.active
                &&& m.retain_messages == guild.retain_messages
                &&& m.oauth == guild.oauth
                &&& m.hide_user == hide_user
                &&& m.hide_deletion_info == hide_deletion_info
            },
        },
{
    let user_id = toggle_user_id(uuid);
    let delete_id = toggle_delete_id(uuid);
    let mut m = copy_model(guild);
    if *custom_id == user_id {
        m.hide_user = !m.hide_user;
        Some(m)
    } else if *custom_id == delete_id {
        m.hide_deletion_info = !m.hide_deletion_info;
        Some(m)
    } else {
        None
    }
}

/// The two buttons of one interaction have different ids, so a click flips exactly one
/// setting.
pub proof fn lemma_toggle_ids_differ(uuid: u64)
    ensures
        toggle_user_id_spec(uuid) != toggle_delete_id_spec(uuid),
{
    reveal_strlit("toggle_user_");
    reveal_strlit("toggle_delete_");
    assert(toggle_user_id_spec(uuid)[7] != toggle_delete_id_spec(uuid)[7]);
}

/// Clicking the same button twice restores the settings it started from, and a click
/// never touches the other setting.
pub proof fn lemma_toggle_twice_restores(guild: Model, custom_id: Seq<char>, uuid: u64)
    requires
        toggled_spec(guild, custom_id, uuid) is Some,
    ensures
        ({
            let (u, d) = toggled_spec(guild, custom_id, uuid)->0;
            let once = Model { hide_user: u, hide_deletion_info: d, ..guild };
            toggled_spec(once, custom_id, uuid) == Some((guild.hide_user, guild.hide_deletion_info))
        }),
        custom_id == toggle_user_id_spec(uuid) ==> (toggled_spec(guild, custom_id, uuid)
            matches Some((u, d)) && d == guild.hide_deletion_info),
        custom_id == toggle_delete_id_spec(uuid) ==> (toggled_spec(guild, custom_id, uuid)
            matches Some((u, d)) && u == guild.hide_user),
{
    lemma_toggle_ids_differ(uuid);
}

/// The settings after the clicks `clicks`, in order, each handled as `apply_interaction`
/// handles it: a click on a button of the interaction `uuid` flips its setting, any other
/// click is ignored.
pub open spec fn after_clicks(guild: Model, clicks: Seq<Seq<char>>, uuid: u64) -> Model
    decreases clicks.len(),
{
    if clicks.len() == 0 {
        guild
    } else {
        let before = after_clicks(guild, clicks.drop_last(), uuid);
        match toggled_spec(before, clicks.last(), uuid) {
            Some((u, d)) => Model { hide_user: u, hide_deletion_info: d, ..before },
            None => before,
        }
    }
}

/// How many of `clicks` are on the button `id`.
pub open spec fn count_clicks(clicks: Seq<Seq<char>>, id: Seq<char>) -> nat
    decreases clicks.len(),
{
    if clicks.len() == 0 {
        0
    } else {
        count_clicks(clicks.drop_last(), id) + if clicks.last() == id { 1nat } else { 0nat }
    }
}

/// After any run of clicks, each setting is flipped exactly when its button was clicked
/// an odd number of times; clicks on other ids change nothing, and the other columns of
/// the guild are kept.
pub proof fn lemma_clicks_flip_by_parity(guild: Model, clicks: Seq<Seq<char>>, uuid: u64)
    ensures
        after_clicks(guild, clicks, uuid).hide_user
            == (guild.hide_user != (count_clicks(clicks, toggle_user_id_spec(uuid)) % 2 == 1)),
        after_clicks(guild, clicks, uuid).hide_deletion_info
            == (guild.hide_deletion_info != (count_clicks(clicks, toggle_delete_id_spec(uuid)) % 2 == 1)),
        after_clicks(guild, clicks, uuid).id == guild.id,
        after_clicks(guild, clicks, uuid).active == guild.active,
        after_clicks(guild, clicks, uuid).retain_messages == guild.retain_messages,
        after_clicks(guild, clicks, uuid).oauth == guild.oauth,
    decreases clicks.len(),
{
    if clicks.len() > 0 {
        lemma_clicks_flip_by_parity(guild, clicks.drop_last(), uuid);
        lemma_toggle_ids_differ(uuid);
    }
}

/// Each field of the footer settings shows its own setting alone: the user field is
/// "❎ " exactly when the user is hidden, the deletion field "❎" exactly when the
/// deletion notice is hidden, and "✅" otherwise, whatever the other setting.
pub proof fn lemma_footer_marks(hide_user: bool, hide_deletion_info: bool)
    ensures
        footer_fields_spec(hide_user, hide_deletion_info).len() == 2,
        footer_fields_spec(hide_user, hide_deletion_info)[0].0 == "Display users in the Footer"@,
        footer_fields_spec(hide_user, hide_deletion_info)[0].1 == if hide_user { "\u{274e} "@ } else { "\u{2705}"@ },
        footer_fields_spec(hide_user, hide_deletion_info)[1].0 == "Display if original messages will be deleted"@,
        footer_fields_spec(hide_user, hide_deletion_info)[1].1
            == if hide_deletion_info { "\u{274e}"@ } else { "\u{2705}"@ },
        footer_fields_spec(hide_user, hide_deletion_info)[1] == footer_fields_spec(!hide_user, hide_deletion_info)[1],
        footer_fields_spec(hide_user, hide_deletion_info)[0] == footer_fields_spec(hide_user, !hide_deletion_info)[0],
        "\u{274e}"@ != "\u{2705}"@,
        "\u{274e} "@ != "\u{2705}"@,
{
    reveal_strlit("\u{274e}");
    reveal_strlit("\u{274e} ");
    reveal_strlit("\u{2705}");
    assert("\u{274e}"@[0] != "\u{2705}"@[0]);
    assert("\u{274e} "@.len() != "\u{2705}"@.len());
}

} // verus!
