//! `publish mastodon`: posts a story summary to Mastodon.

use vstd::prelude::*;
use crate::entity::oauth::Model;
use crate::ui::{Button, ButtonStyle, opt_view};

verus! {

/// The label of the button that marks a published summary.
pub open spec fn published_label() -> Seq<char> {
    "\u{1f418} mastodon"@
}

/// Checks that the chosen message is a story summary: the bot wrote it and it has an
/// embed.
pub fn check_story_message(from_this_bot: bool, has_embeds: bool) -> (r: Result<(), String>)
    ensures
        r is Ok <==> (from_this_bot && has_embeds),
        r matches Err(e) ==> e@ == "Invalid message supplied, please select story summary!"@,
{
    if !from_this_bot || !has_embeds {
        Err(String::from_str("Invalid message supplied, please select story summary!"))
    } else {
        Ok(())
    }
}

/// Checks that Mastodon is configured and enabled for the guild: the provider's
/// variables are all set, the guild has a stored token (`token`), and it is active.
pub fn check_configured(provider_missing: bool, token: &Option<Model>) -> (r: Result<(), String>)
    ensures
        r is Ok <==> (!provider_missing && (token matches Some(t) && t.active)),
        (provider_missing || token is None) ==> (r matches Err(e) && e@ == "Mastodon is currently not configured!"@),
        (!provider_missing && (token matches Some(t) && !t.active)) ==> (r matches Err(e)
            && e@ == "Mastodon is currently disabled!"@),
{
    match token {
        None => Err(String::from_str("Mastodon is currently not configured!")),
        Some(t) => {
            if provider_missing {
                Err(String::from_str("Mastodon is currently not configured!"))
            } else if !t.active {
                Err(String::from_str("Mastodon is currently disabled!"))
            } else {
                Ok(())
            }
        },
    }
}

/// Checks that the summary was not published yet: its first button, if it has one, is
/// not the Mastodon link.
pub fn check_not_published(first_button_label: &Option<String>) -> (r: Result<(), String>)
    ensures
        r is Err <==> (first_button_label matches Some(l) && l@ == published_label()),
        r matches Err(e) ==> e@ == "Message already published to mastodon!"@,
{
    match first_button_label {
        Some(l) => {
            let published = String::from_str("\u{1f418} mastodon");
            if *l == published {
                Err(String::from_str("Message already published to mastodon!"))
            } else {
                Ok(())
            }
        },
        None => Ok(()),
    }
}

/// The error shown when posting failed.
pub fn publish_failed() -> (e: String)
    ensures
        e@ == "Failed to publish to mastodon!"@,
{
    String::from_str("Failed to publish to mastodon!")
}

/// The button that marks a published summary and links to the post at `url`.
pub fn published_button(url: String) -> (b: Button)
    ensures
        b.custom_id is None,
        opt_view(b.url) == Some(url@),
        b.label@ == published_label(),
        b.style == ButtonStyle::Link,
        !b.disabled,
{
    Button {
        custom_id: None,
        url: Some(url),
        label: String::from_str("\u{1f418} mastodon"),
        style: ButtonStyle::Link,
        disabled: false,
    }
}

} // verus!
