use oneword::commands::configure::{footer, mastodon};
use oneword::commands::info::list;
use oneword::commands::publication::mastodon as publication;
use oneword::commands::watcher::{unwatch, watch};
use oneword::commands::{check_permissions, require_admin, require_mod, ADMINISTRATOR, MANAGE_MESSAGES};
use oneword::entity::{channel, guild, oauth};
use oneword::env::Environment;
use oneword::oauth::common::ProviderRequirements;
use oneword::ui::ButtonStyle;

fn env(vars: &[(&str, &str)]) -> Environment {
    Environment { vars: vars.iter().map(|(k, v)| (k.to_string(), v.to_string())).collect() }
}

fn guild_model(hide_user: bool, hide_deletion_info: bool) -> guild::Model {
    guild::Model { id: "1".into(), active: true, retain_messages: false, oauth: false, hide_user, hide_deletion_info }
}

#[test]
fn permission_bits() {
    assert_eq!(ADMINISTRATOR, 8);
    assert_eq!(MANAGE_MESSAGES, 8192);
}

#[test]
fn permission_checks() {
    let owners = vec![100u64];
    assert!(check_permissions(8, 8, &owners, 1).is_ok());
    assert!(check_permissions(9, 8, &owners, 1).is_ok());
    assert_eq!(check_permissions(0, 8, &owners, 1), Err("insufficient permissions!".to_string()));
    assert_eq!(check_permissions(7, 8, &owners, 1), Err("insufficient permissions!".to_string()));
    assert!(check_permissions(0, 8, &owners, 100).is_ok());
    assert!(require_admin(16, &owners, 1).is_err());
    assert!(require_admin(8 | 16, &owners, 1).is_ok());
    assert!(require_mod(16, &owners, 1).is_err());
    assert!(require_mod(0, &owners, 1).is_err());
    assert!(require_mod(8192 | 1, &owners, 1).is_ok());
    assert!(require_mod(0, &owners, 100).is_ok());
}

#[test]
fn more_permission_bits_stay_admitted() {
    let owners: Vec<u64> = vec![];
    assert!(check_permissions(8192, 8192, &owners, 1).is_ok());
    assert!(check_permissions(8192 | 8 | 2, 8192, &owners, 1).is_ok());
}

#[test]
fn footer_embed() {
    let e = footer::create_embed(&guild_model(true, false));
    assert_eq!(e.title, Some("Configure Endgame Footer".to_string()));
    assert_eq!(e.description, Some("Click on one of the buttons to change the settings.".to_string()));
    assert_eq!(e.fields[0].name, "Display users in the Footer");
    assert_eq!(e.fields[0].value, "❎ ");
    assert_eq!(e.fields[1].name, "Display if original messages will be deleted");
    assert_eq!(e.fields[1].value, "✅");
    assert!(!e.fields[0].inline);
}

#[test]
fn footer_buttons() {
    let b = footer::create_components(&guild_model(false, true), 123);
    assert_eq!(b[0].custom_id, Some("toggle_user_123".to_string()));
    assert_eq!(b[0].label, "Hide User");
    assert_eq!(b[1].custom_id, Some("toggle_delete_123".to_string()));
    assert_eq!(b[1].label, "Show Deletion Info");
    assert!(b[0].style == ButtonStyle::Primary);
}

#[test]
fn footer_toggles() {
    let g = guild_model(false, false);
    let once = footer::apply_interaction(&g, &"toggle_user_7".to_string(), 7).unwrap();
    assert!(once.hide_user && !once.hide_deletion_info && once.active && !once.retain_messages);
    let twice = footer::apply_interaction(&once, &"toggle_user_7".to_string(), 7).unwrap();
    assert!(!twice.hide_user && !twice.hide_deletion_info);
    let d = footer::apply_interaction(&g, &"toggle_delete_7".to_string(), 7).unwrap();
    assert!(!d.hide_user && d.hide_deletion_info);
    assert!(footer::apply_interaction(&g, &"toggle_user_8".to_string(), 7).is_none());
    assert!(footer::apply_interaction(&g, &"other".to_string(), 7).is_none());
}

#[test]
fn footer_click_runs_flip_by_parity() {
    let mut g = guild_model(false, true);
    let clicks = ["toggle_user_7", "other", "toggle_delete_7", "toggle_user_7", "toggle_user_7", "toggle_delete_9"];
    for c in clicks {
        if let Some(m) = footer::apply_interaction(&g, &c.to_string(), 7) {
            g = m;
        }
    }
    assert!(g.hide_user);
    assert!(!g.hide_deletion_info);
    assert!(g.active);
    assert!(!g.retain_messages);
    assert_eq!(g.id, "1");
}

#[test]
fn unwatch_offers_each_watched_channel_by_name() {
    let connections = vec![chan("20"), chan("+10")];
    let channels = vec![(10u64, "general".to_string()), (20u64, "stories".to_string()), (30u64, "off".to_string())];
    let choices = unwatch::unwatch_choices(&connections, &channels);
    assert_eq!(choices, vec![("#stories".to_string(), 20), ("#general".to_string(), 10)]);
    assert!(unwatch::unwatch_choices(&vec![], &channels).is_empty());
}

fn pairs(v: &[(&str, &str)]) -> Vec<(String, String)> {
    v.iter().map(|(a, b)| (a.to_string(), b.to_string())).collect()
}

#[test]
fn format_requirements() {
    assert_eq!(mastodon::format_iter(&pairs(&[("A", "client id"), ("B", "client secret")]), false),
        "client id ❌\nclient secret ❌");
    assert_eq!(mastodon::format_iter(&pairs(&[("A", "client id")]), true), "client id ✅");
    assert_eq!(mastodon::format_iter(&vec![], true), "");
}

#[test]
fn configure_embed_when_available() {
    let p = ProviderRequirements::new(pairs(&[("A", "a")]), &env(&[("A", "1")]));
    let e = mastodon::create_embed(&p, true);
    assert_eq!(e.title, Some("Configure Mastodon integration".to_string()));
    assert_eq!(e.description, Some("This allows you to enable Mastodon integration to post stories on behalf of your mastodon account.\n⚠️ There is already a user configured for this guild. This will overwrite this user on successful authentication!".to_string()));
    assert!(e.fields.is_empty());
    let e = mastodon::create_embed(&p, false);
    assert_eq!(e.description, Some("This allows you to enable Mastodon integration to post stories on behalf of your mastodon account.\n".to_string()));
}

#[test]
fn configure_embed_when_missing() {
    let p = ProviderRequirements::new(pairs(&[("A", "client id"), ("B", "client secret")]), &env(&[("A", "1")]));
    let e = mastodon::create_embed(&p, false);
    assert_eq!(e.description, Some("⚠️ Right now, Mastodon integration is not available. Please contact bot owner to enable it for your guild.".to_string()));
    assert_eq!(e.fields.len(), 1);
    assert_eq!(e.fields[0].name, "requirements");
    assert_eq!(e.fields[0].value, "client secret ❌\nclient id ✅");
    assert!(!e.fields[0].inline);
}

#[test]
fn configure_buttons() {
    let b = mastodon::create_components(true, false, true, "https://u".to_string());
    assert_eq!(b[0].custom_id, Some("toggle_integration".to_string()));
    assert_eq!(b[0].label, "Disable");
    assert!(b[0].disabled);
    assert_eq!(b[1].url, Some("https://u".to_string()));
    assert_eq!(b[1].label, "Request Token");
    assert!(b[1].disabled);
    assert!(b[1].style == ButtonStyle::Link);
    let b = mastodon::create_components(false, true, false, "x".to_string());
    assert_eq!(b[0].label, "Enable");
    assert!(!b[0].disabled && !b[1].disabled);
}

#[test]
fn configure_request_url() {
    let e = env(&[("OAUTH_URL_BASE", "https://bot/oauth")]);
    assert_eq!(mastodon::request_url(&e, 12, None),
        "https://bot/oauth/mastodon/request?guild=12&instance=mastodon.social");
    assert_eq!(mastodon::request_url(&e, 12, Some("fosstodon.org".to_string())),
        "https://bot/oauth/mastodon/request?guild=12&instance=fosstodon.org");
    assert_eq!(mastodon::request_url(&env(&[]), 12, None), "https://example.com");
}

fn chan(id: &str) -> channel::Model {
    channel::Model { guild_id: "1".into(), channel_id: id.into() }
}

#[test]
fn list_embeds() {
    let e = list::create_embed(&vec![chan("10"), chan("20")]);
    assert_eq!(e.title, Some("active channels".to_string()));
    assert_eq!(e.description, Some("the following channels will be watched:".to_string()));
    assert_eq!(e.fields[0].name, "channel");
    assert_eq!(e.fields[0].value, "<#10>\n<#20>");
    assert!(e.fields[0].inline);
    let e = list::create_embed(&vec![]);
    assert_eq!(e.description, Some("currently no active channel configs are present".to_string()));
    assert!(e.fields.is_empty());
}

#[test]
fn watch_writes_only_new_channels() {
    let q = watch::watched_query(1, 2);
    assert_eq!(q.value, "1");
    assert_eq!(q.also, Some("2".to_string()));
    let m = watch::watch_save(1, 2, 0).unwrap();
    assert_eq!(m.guild_id, "1");
    assert_eq!(m.channel_id, "2");
    assert!(watch::watch_save(1, 2, 1).is_none());
    let e = watch::create_embed(false, &vec![chan("2")]);
    assert_eq!(e.title, Some("nothing to change".to_string()));
    assert_eq!(e.description, Some("The following channels will be watched:".to_string()));
    assert_eq!(e.fields[0].value, "<#2>");
    let e = watch::create_embed(true, &vec![]);
    assert_eq!(e.title, Some("successfully updated settings".to_string()));
    assert_eq!(e.fields[0].value, "");
}

#[test]
fn unwatch_replies() {
    assert_eq!(unwatch::message_link(3, 2, Some(1)), "https://discord.com/channels/1/2/3");
    assert_eq!(unwatch::message_link(3, 2, None), "https://discord.com/channels/@me/2/3");
    assert!(unwatch::unwatch_save(true, 3, 2, Some(1)).is_ok());
    assert!(unwatch::unwatch_save(true, 0, 2, Some(1)).is_ok());
    assert_eq!(unwatch::unwatch_save(false, 3, 2, Some(1)),
        Err("https://discord.com/channels/1/2/3 is not yet watched".to_string()));
    let e = unwatch::create_embed(55);
    assert_eq!(e.title, Some("successfully updated settings".to_string()));
    assert_eq!(e.description, Some("the following channel will no longer be watched".to_string()));
    assert_eq!(e.fields[0].value, "<#55>");
}

fn token(active: bool) -> oauth::Model {
    oauth::Model { guild_id: "1".into(), name: "mastodon".into(), active, instance: "i".into(), data: "d".into() }
}

#[test]
fn publish_checks() {
    assert!(publication::check_story_message(true, true).is_ok());
    assert_eq!(publication::check_story_message(false, true),
        Err("Invalid message supplied, please select story summary!".to_string()));
    assert!(publication::check_story_message(true, false).is_err());
    assert_eq!(publication::check_configured(true, &Some(token(true))),
        Err("Mastodon is currently not configured!".to_string()));
    assert_eq!(publication::check_configured(false, &None),
        Err("Mastodon is currently not configured!".to_string()));
    assert_eq!(publication::check_configured(false, &Some(token(false))),
        Err("Mastodon is currently disabled!".to_string()));
    assert!(publication::check_configured(false, &Some(token(true))).is_ok());
    assert_eq!(publication::check_not_published(&Some("🐘 mastodon".to_string())),
        Err("Message already published to mastodon!".to_string()));
    assert!(publication::check_not_published(&Some("other".to_string())).is_ok());
    assert!(publication::check_not_published(&None).is_ok());
    assert_eq!(publication::publish_failed(), "Failed to publish to mastodon!");
    let b = publication::published_button("https://m/1".to_string());
    assert_eq!(b.label, "🐘 mastodon");
    assert_eq!(b.url, Some("https://m/1".to_string()));
    assert!(b.style == ButtonStyle::Link);
}
