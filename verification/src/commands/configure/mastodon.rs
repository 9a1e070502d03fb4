//! `configure mastodon`: the view that lets an administrator connect a Mastodon account.

use vstd::prelude::*;
use crate::env::{Environment, lookup_env, pairs_view};
use crate::oauth::common::ProviderRequirements;
use crate::oauth::mastodon::{MastodonProvider, request_url_spec, url_base_var};
use crate::text::{decimal, join, join_strings, push_decimal, views};
use crate::ui::{Button, ButtonStyle, Embed, EmbedField, field, fields_view, opt_view};

verus! {

/// The mark after a requirement: fulfilled or missing.
pub open spec fn mark(ok: bool) -> Seq<char> {
    if ok { "\u{2705}"@ } else { "\u{274c}"@ }
}

/// One line per requirement: its description and the mark.
pub open spec fn format_iter_spec(reqs: Seq<(Seq<char>, Seq<char>)>, ok: bool) -> Seq<char> {
    join(reqs.map_values(|r: (Seq<char>, Seq<char>)| r.1 + " "@ + mark(ok)), "\n"@)
}

/// Lists the descriptions of `reqs`, one per line, each followed by the mark for `ok`.
pub fn format_iter(reqs: &Vec<(String, String)>, ok: bool) -> (s: String)
    ensures
        s@ == format_iter_spec(pairs_view(reqs@), ok),
{
    let ghost target = pairs_view(reqs@).map_values(|r: (Seq<char>, Seq<char>)| r.1 + " "@ + mark(ok));
    let mut lines: Vec<String> = Vec::new();
    let mut i: usize = 0;
    while i < reqs.len()
        invariant
            i <= reqs.len(),
            lines@.len() == i,
            target == pairs_view(reqs@).map_values(|r: (Seq<char>, Seq<char>)| r.1 + " "@ + mark(ok)),
            views(lines@) == target.subrange(0, i as int),
        decreases reqs.len() - i,
    {
        let mut line = reqs[i].1.clone();
        line.append(" ");
        if ok {
            line.append("\u{2705}");
        } else {
            line.append("\u{274c}");
        }
        assert(pairs_view(reqs@)[i as int] == (reqs@[i as int].0@, reqs@[i as int].1@));
        assert(line@ == target[i as int]);
        let ghost prev = lines@;
        lines.push(line);
        assert(views(lines@) =~= target.subrange(0, i + 1));
        i = i + 1;
    }
    assert(target.subrange(0, reqs.len() as int) =~= target);
    join_strings(&lines, "\n")
}

/// The explanation shown when Mastodon can be configured.
pub open spec fn intro() -> Seq<char> {
    "This allows you to enable Mastodon integration to post stories on behalf of your mastodon account."@
}

/// The warning that a configured account will be replaced.
pub open spec fn overwrite_warning() -> Seq<char> {
    "\u{26a0}\u{fe0f} There is already a user configured for this guild. This will overwrite this user on successful authentication!"@
}

/// The notice that Mastodon cannot be configured.
pub open spec fn unavailable_notice() -> Seq<char> {
    "\u{26a0}\u{fe0f} Right now, Mastodon integration is not available. Please contact bot owner to enable it for your guild."@
}

/// The description of the view.
pub open spec fn description_spec(has_missing: bool, already_configured: bool) -> Seq<char> {
    if !has_missing {
        intro() + "\n"@ + (if already_configured { overwrite_warning() } else { Seq::empty() })
    } else {
        unavailable_notice()
    }
}

/// The fields of the view: the requirements with their marks when one is missing.
pub open spec fn configure_fields_spec(p: ProviderRequirements) -> Seq<(Seq<char>, Seq<char>, bool)> {
    if p.has_missing {
        seq![("requirements"@,
            format_iter_spec(pairs_view(p.missing@), false) + "\n"@ + format_iter_spec(pairs_view(p.fulfilled@), true),
            false)]
    } else {
        Seq::empty()
    }
}

/// The embed of `configure mastodon`.
pub fn create_embed(requirements: &ProviderRequirements, already_configured: bool) -> (e: Embed)
    ensures
        opt_view(e.title) == Some("Configure Mastodon integration"@),
        opt_view(e.description) == Some(description_spec(requirements.has_missing, already_configured)),
        fields_view(e.fields@) == configure_fields_spec(*requirements),
        e.footer is None,
{
    let description = if !requirements.has_missing {
        let mut d = String::from_str(
            "This allows you to enable Mastodon integration to post stories on behalf of your mastodon account.");
        d.append("\n");
        if already_configured {
            d.append("\u{26a0}\u{fe0f} There is already a user configured for this guild. This will overwrite this user on successful authentication!");
        }
        d
    } else {
        String::from_str("\u{26a0}\u{fe0f} Right now, Mastodon integration is not available. Please contact bot owner to enable it for your guild.")
    };
    let mut fields: Vec<EmbedField> = Vec::new();
    if requirements.has_missing {
        let mut value = format_iter(&requirements.missing, false);
        value.append("\n");
        let fulfilled = format_iter(&requirements.fulfilled, true);
        value.append(fulfilled.as_str());
        fields.push(field(String::from_str("requirements"), value, false));
    }
    let e = Embed {
        title: Some(String::from_str("Configure Mastodon integration")),
        description: Some(description),
        fields,
        footer: None,
    };
    assert(fields_view(e.fields@) =~= configure_fields_spec(*requirements));
    assert(description@ =~= description_spec(requirements.has_missing, already_configured));
    e
}

/// The two buttons: one that enables or disables the integration, usable once an
/// account is configured; one that opens `url` to request a token, usable when nothing
/// is missing.
pub fn create_components(oauth_active: bool, configured: bool, missing_requirements: bool, url: String)
    -> (buttons: Vec<Button>)
    ensures
        buttons@.len() == 2,
        opt_view(buttons@[0].custom_id) == Some("toggle_integration"@),
        buttons@[0].url is None,
        buttons@[0].label@ == if oauth_active { "Disable"@ } else { "Enable"@ },
        buttons@[0].style == ButtonStyle::Primary,
        buttons@[0].disabled == !configured,
        buttons@[1].custom_id is None,
        opt_view(buttons@[1].url) == Some(url@),
        buttons@[1].label@ == "Request Token"@,
        buttons@[1].style == ButtonStyle::Link,
        buttons@[1].disabled == missing_requirements,
{
    let label = if oauth_active { String::from_str("Disable") } else { String::from_str("Enable") };
    let mut buttons: Vec<Button> = Vec::new();
    buttons.push(Button {
        custom_id: Some(String::from_str("toggle_integration")),
        url: None,
        label,
        style: ButtonStyle::Primary,
        disabled: !configured,
    });
    buttons.push(Button {
        custom_id: None,
        url: Some(url),
        label: String::from_str("Request Token"),
        style: ButtonStyle::Link,
        disabled: missing_requirements,
    });
    buttons
}

/// The request url with the guild and instance as query.
pub open spec fn with_query_spec(url: Seq<char>, guild_id: u64, instance: Seq<char>) -> Seq<char> {
    url + "?guild="@ + decimal(guild_id as nat) + "&instance="@ + instance
}

fn with_query(url: String, guild_id: u64, instance: &String) -> (s: String)
    ensures
        s@ == with_query_spec(url@, guild_id, instance@),
{
    let mut s = url;
    s.append("?guild=");
    push_decimal(&mut s, guild_id);
    s.append("&instance=");
    s.append(instance.as_str());
    s
}

/// The url that starts the authorization of `guild_id` at `instance` (default
/// `mastodon.social`), or `https://example.com` when `OAUTH_URL_BASE` is not set.
pub fn request_url(env: &Environment, guild_id: u64, instance: Option<String>) -> (s: String)
    ensures
        ({
            let inst = match instance { Some(i) => i@, None => "mastodon.social"@ };
            match lookup_env(env@, url_base_var()) {
                Some(base) => s@ == with_query_spec(request_url_spec(base), guild_id, inst),
                None => s@ == "https://example.com"@,
            }
        }),
{
    let inst = match instance {
        Some(i) => i,
        None => String::from_str("mastodon.social"),
    };
    let ghost inst_view = inst@;
    let add_query = move |url: String| -> (s: String)
        ensures
            s@ == with_query_spec(url@, guild_id, inst_view),
        { with_query(url, guild_id, &inst) };
    match MastodonProvider::get_url(env, Some(add_query)) {
        Some(url) => url,
        None => String::from_str("https://example.com"),
    }
}

/// The description tells whether Mastodon can be set up: whenever a requirement is
/// missing it is the unavailability notice, whether or not the guild already has an
/// account; only when nothing is missing does it invite the setup, and it warns of the
/// overwrite exactly when an account is already configured.
pub proof fn lemma_description_by_availability(already_configured: bool)
    ensures
        description_spec(true, already_configured)
            == "\u{26a0}\u{fe0f} Right now, Mastodon integration is not available. Please contact bot owner to enable it for your guild."@,
        description_spec(false, already_configured)
            == "This allows you to enable Mastodon integration to post stories on behalf of your mastodon account."@
                + "\n"@ + if already_configured {
                    "\u{26a0}\u{fe0f} There is already a user configured for this guild. This will overwrite this user on successful authentication!"@
                } else {
                    Seq::empty()
                },
        description_spec(true, true) == description_spec(true, false),
        description_spec(false, already_configured) != description_spec(true, already_configured),
{
    reveal_strlit("\u{26a0}\u{fe0f} Right now, Mastodon integration is not available. Please contact bot owner to enable it for your guild.");
    reveal_strlit("This allows you to enable Mastodon integration to post stories on behalf of your mastodon account.");
    assert(description_spec(false, already_configured)[0] != description_spec(true, already_configured)[0]);
}

} // verus!
