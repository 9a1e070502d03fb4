use oneword::entity::{channel, guild, oauth};

#[test]
fn update_channel_stores_ids_as_decimal() {
    let m = channel::ActiveModel::update_channel(1234, 987654321);
    assert_eq!(m.guild_id, "1234");
    assert_eq!(m.channel_id, "987654321");
}

#[test]
fn channel_queries_filter_by_decimal_id() {
    let q = channel::Channel::find_by_guild(55);
    assert!(q.column == channel::Column::GuildId);
    assert_eq!(q.value, "55");
    assert!(q.also.is_none());
    let q = channel::Channel::find_by_channel(66).also_equal(55);
    assert!(q.column == channel::Column::ChannelId);
    assert_eq!(q.value, "66");
    assert_eq!(q.also, Some("55".to_string()));
}

#[test]
fn create_oauth_sets_every_field() {
    let m = oauth::ActiveModel::create_oauth(7, "mastodon".to_string(), true, "https://m.social".to_string(), "tok".to_string());
    assert_eq!(m.guild_id, "7");
    assert_eq!(m.name, "mastodon");
    assert!(m.active);
    assert_eq!(m.instance, "https://m.social");
    assert_eq!(m.data, "tok");
}

#[test]
fn oauth_queries() {
    let q = oauth::Oauth::find_by_guild(9).with_name("mastodon".to_string());
    assert!(q.column == oauth::Column::GuildId);
    assert_eq!(q.value, "9");
    assert_eq!(q.name, Some("mastodon".to_string()));
    let q = oauth::Oauth::find_by_name("x".to_string());
    assert!(q.column == oauth::Column::Name);
    let q = oauth::Oauth::find_by_instance("https://i".to_string());
    assert!(q.column == oauth::Column::Instance);
    assert_eq!(q.value, "https://i");
}

#[test]
fn oauth_safe_reports_missing_token() {
    match oauth::oauth_safe(None) {
        Err(e) => assert_eq!(e, "failed to retrieve guild"),
        Ok(_) => panic!("expected an error"),
    }
    let m = oauth::Model { guild_id: "1".into(), name: "mastodon".into(), active: false, instance: "i".into(), data: "d".into() };
    assert!(oauth::oauth_safe(Some(m)).is_ok());
}

#[test]
fn guild_records() {
    let g = guild::ActiveModel::register(42);
    assert_eq!(g.id, "42");
    assert!(!g.active && g.retain_messages && !g.oauth);
    assert!(g.hide_user.is_none() && g.hide_deletion_info.is_none());
    let u = guild::ActiveModel::update_guild(42, true, false, true, true, false);
    assert!(u.active && !u.retain_messages && u.oauth);
    assert_eq!(u.hide_user, Some(true));
    assert_eq!(u.hide_deletion_info, Some(false));
    let model = guild::Model { id: "42".into(), active: false, retain_messages: true, oauth: false, hide_user: true, hide_deletion_info: true };
    let a = guild::ActiveModel::with_active(42, &model, true);
    assert!(a.active && a.retain_messages && !a.oauth);
    assert_eq!(a.hide_user, Some(true));
}

#[test]
fn query_selects_only_its_own_guild() {
    let stored = channel::ActiveModel::update_channel(12, 34);
    let q = channel::Channel::find_by_guild(12);
    assert_eq!(q.value, stored.guild_id);
    let other = channel::Channel::find_by_guild(120);
    assert_ne!(other.value, stored.guild_id);
}
