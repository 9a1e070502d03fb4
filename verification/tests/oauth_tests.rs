use oneword::env::Environment;
use oneword::oauth::common::ProviderRequirements;
use oneword::oauth::mastodon::{MastodonProvider, RequestCodeQuery, ResponseState};
use oneword::oauth::router::{
    init, oauth_callback, request_token, CallbackAction, CallbackEvent, CallbackStage, OauthRoutes,
    StoredToken, TokenOutcome, TokenRequestAnswer,
};
use oneword::oauth::{check_requirements, get_requirements};

fn env(vars: &[(&str, &str)]) -> Environment {
    Environment { vars: vars.iter().map(|(k, v)| (k.to_string(), v.to_string())).collect() }
}

fn full_env() -> Environment {
    env(&[
        ("MASTODON_CLIENT_ID", "cid"),
        ("MASTODON_CLIENT_SECRET", "secret"),
        ("OAUTH_URL_BASE", "https://bot.example/oauth"),
    ])
}

fn pairs(v: &[(&str, &str)]) -> Vec<(String, String)> {
    v.iter().map(|(a, b)| (a.to_string(), b.to_string())).collect()
}

#[test]
fn requirements_split_by_environment() {
    let e = env(&[("A", "x"), ("C", "")]);
    let p = ProviderRequirements::new(pairs(&[("A", "a"), ("B", "b"), ("C", "c")]), &e);
    assert_eq!(p.fulfilled, pairs(&[("A", "a")]));
    assert_eq!(p.missing, pairs(&[("B", "b"), ("C", "c")]));
    assert!(p.has_missing);
    assert_eq!(p.get_missing_list_str(), "B, C");
}

#[test]
fn nothing_missing() {
    let e = env(&[("A", "x")]);
    let p = ProviderRequirements::new(pairs(&[("A", "a")]), &e);
    assert!(!p.has_missing);
    assert_eq!(p.get_missing_list_str(), "");
}

#[test]
fn mastodon_requirements() {
    let p = MastodonProvider::get_requirements(&env(&[("MASTODON_CLIENT_ID", "x")]));
    assert_eq!(p.fulfilled, pairs(&[("MASTODON_CLIENT_ID", "client id")]));
    assert_eq!(p.missing, pairs(&[("MASTODON_CLIENT_SECRET", "client secret")]));
    let all = get_requirements(&full_env());
    let m = all.get("mastodon").expect("mastodon is listed");
    assert!(!m.has_missing);
    assert!(all.get("other").is_none());
}

#[test]
fn oauth_needs_url_base() {
    assert!(check_requirements(&full_env()));
    assert!(!check_requirements(&env(&[("OAUTH_URL_BASE", "")])));
}

#[test]
fn routes_without_url_base_warn() {
    match init(&env(&[])) {
        OauthRoutes::Unavailable { warning, reply } => {
            assert_eq!(warning, "missing env: OAUTH_URL_BASE - oauth will not be available!");
            assert_eq!(reply.status, 400);
            assert_eq!(reply.body, "sorry, oauth is not configured");
        }
        OauthRoutes::Providers => panic!("routes offered without base url"),
    }
    assert!(matches!(init(&full_env()), OauthRoutes::Providers));
}

#[test]
fn get_url_with_and_without_closure() {
    let e = full_env();
    let plain = MastodonProvider::get_url(&e, None::<fn(String) -> String>);
    assert_eq!(plain, Some("https://bot.example/oauth/mastodon/request".to_string()));
    let wrapped = MastodonProvider::get_url(&e, Some(|u: String| format!("{u}?x=1")));
    assert_eq!(wrapped, Some("https://bot.example/oauth/mastodon/request?x=1".to_string()));
    assert_eq!(MastodonProvider::get_url(&env(&[]), None::<fn(String) -> String>), None);
}

#[test]
fn request_token_builds_body() {
    let (url, body) = MastodonProvider::request_token("https://m.social".into(), "abc".into(), &full_env()).unwrap();
    assert_eq!(url, "https://m.social/oauth/token");
    assert_eq!(body.grant_type, "authorization_code");
    assert_eq!(body.code, "abc");
    assert_eq!(body.client_id, "cid");
    assert_eq!(body.client_secret, "secret");
    assert_eq!(body.redirect_uri, "https://bot.example/oauth/mastodon/callback");
    assert_eq!(body.scope, "write:statuses");
}

#[test]
fn request_token_reports_first_missing_variable() {
    let r = MastodonProvider::request_token("i".into(), "c".into(), &env(&[("OAUTH_URL_BASE", "b")]));
    assert_eq!(r.err(), Some("Missing MASTODON_CLIENT_ID".to_string()));
    let r = MastodonProvider::request_token("i".into(), "c".into(), &env(&[("MASTODON_CLIENT_ID", "x")]));
    assert_eq!(r.err(), Some("Missing MASTODON_CLIENT_SECRET".to_string()));
    let r = MastodonProvider::request_token("i".into(), "c".into(),
        &env(&[("MASTODON_CLIENT_ID", "x"), ("MASTODON_CLIENT_SECRET", "y")]));
    assert_eq!(r.err(), Some("Missing OAUTH_URL_BASE".to_string()));
}

fn serialize(s: ResponseState) -> String {
    format!("{}|{}", s.guild, s.instance)
}

/// The url that `oauth2` itself builds for the bot's client at `auth_url`.
fn oauth2_url(auth_url: &str, state: &str) -> String {
    let state = state.to_string();
    let (url, _) = oauth2::basic::BasicClient::new(
        oauth2::ClientId::new("cid".into()),
        Some(oauth2::ClientSecret::new("secret".into())),
        oauth2::AuthUrl::new(auth_url.into()).unwrap(),
        None,
    )
    .set_redirect_uri(oauth2::RedirectUrl::new("https://bot.example/oauth/mastodon/callback".into()).unwrap())
    .authorize_url(move || oauth2::CsrfToken::new(state))
    .add_scope(oauth2::Scope::new("write:statuses".into()))
    .use_implicit_flow()
    .set_response_type(&oauth2::ResponseType::new("code".into()))
    .url();
    url.to_string()
}

#[test]
fn request_auth_uses_https_unless_forced() {
    let (url, token) = MastodonProvider::request_auth(5, "m.social".into(), false, &full_env(), serialize).unwrap();
    assert_eq!(token, "5|https://m.social");
    assert_eq!(url, oauth2_url("https://m.social/oauth/authorize", "5|https://m.social"));
    let (url, token) = MastodonProvider::request_auth(5, "localhost:3000".into(), true, &full_env(), serialize).unwrap();
    assert_eq!(token, "5|http://localhost:3000");
    assert_eq!(url, oauth2_url("http://localhost:3000/oauth/authorize", "5|http://localhost:3000"));
}

#[test]
fn request_auth_builds_the_authorization_url() {
    let (url, _) = MastodonProvider::request_auth(5, "m.social".into(), false, &full_env(), serialize).unwrap();
    assert_eq!(
        url,
        "https://m.social/oauth/authorize?response_type=code&client_id=cid&state=5%7Chttps%3A%2F%2Fm.social\
         &redirect_uri=https%3A%2F%2Fbot.example%2Foauth%2Fmastodon%2Fcallback&scope=write%3Astatuses"
    );
}

#[test]
fn request_auth_reports_what_the_client_lacks() {
    let r = MastodonProvider::request_auth(5, "m.social".into(), false, &env(&[]), serialize);
    assert_eq!(r, Err("Missing MASTODON_CLIENT_ID".to_string()));
    let r = MastodonProvider::request_auth(5, "exa mple".into(), false, &full_env(), serialize);
    assert!(r.is_err());
}

#[test]
fn create_client_reports_bad_urls() {
    let e = full_env();
    let err = MastodonProvider::create_client("https://exa mple".into(), &e).err().unwrap();
    assert_eq!(err, oauth2::url::Url::parse("https://exa mple/oauth/authorize").unwrap_err().to_string());
    let bad_base = env(&[("MASTODON_CLIENT_ID", "x"), ("MASTODON_CLIENT_SECRET", "y"), ("OAUTH_URL_BASE", "not a url")]);
    let err = MastodonProvider::create_client("https://m.social".into(), &bad_base).err().unwrap();
    assert_eq!(err, "relative URL without a base");
}

#[test]
fn verify_code_accepts_everything() {
    assert!(MastodonProvider::verify_code(&"anything".to_string(), 1));
}

#[test]
fn publish_request_targets_statuses() {
    let config = oneword::entity::oauth::Model {
        guild_id: "1".into(), name: "mastodon".into(), active: true,
        instance: "https://m.social".into(), data: "tok".into(),
    };
    let r = MastodonProvider::publish_request(&config, "a story.".into());
    assert_eq!(r.endpoint, "https://m.social/api/v1/statuses");
    assert_eq!(r.token, "tok");
    assert_eq!(r.status, "a story.");
}

fn query(guild: u64, instance: &str, force: Option<bool>) -> RequestCodeQuery {
    RequestCodeQuery { guild, instance: instance.into(), force_insecure: force }
}

#[test]
fn token_request_answers() {
    let e = full_env();
    match request_token(None, query(1, "m.social", None), &e, serialize) {
        TokenRequestAnswer::Reply(r) => {
            assert_eq!(r.status, 500);
            assert_eq!(r.body, "failed to query database");
        }
        _ => panic!(),
    }
    match request_token(Some(0), query(1, "m.social", None), &e, serialize) {
        TokenRequestAnswer::Reply(r) => {
            assert_eq!(r.status, 400);
            assert_eq!(r.body, "guild not registered");
        }
        _ => panic!(),
    }
    match request_token(Some(1), query(1, "m.social", Some(true)), &e, serialize) {
        TokenRequestAnswer::Redirect(url) => {
            assert_eq!(url, oauth2_url("http://m.social/oauth/authorize", "1|http://m.social"))
        }
        _ => panic!(),
    }
    match request_token(Some(1), query(1, "m.social", None), &env(&[]), serialize) {
        TokenRequestAnswer::Reply(r) => {
            assert_eq!(r.status, 500);
            assert_eq!(r.body, "Missing MASTODON_CLIENT_ID");
        }
        _ => panic!(),
    }
}

fn reply_of(a: CallbackAction) -> (u16, String) {
    match a {
        CallbackAction::Reply(r) => (r.status, r.body),
        _ => panic!("expected a reply"),
    }
}

fn started(state: Option<ResponseState>) -> CallbackEvent {
    CallbackEvent::Started { code: "code1".into(), state }
}

fn state() -> Option<ResponseState> {
    Some(ResponseState { guild: 77, instance: "https://m.social".into() })
}

#[test]
fn callback_success_runs_every_step() {
    let e = full_env();
    let (s, a) = oauth_callback(CallbackStage::Start, started(state()), &e);
    match a {
        CallbackAction::VerifyCode { code, guild } => {
            assert_eq!(code, "code1");
            assert_eq!(guild, 77);
        }
        _ => panic!(),
    }
    let (s, a) = oauth_callback(s, CallbackEvent::Verified(true), &e);
    match a {
        CallbackAction::LoadOldToken { query } => {
            assert!(query.column == oneword::entity::oauth::Column::GuildId);
            assert_eq!(query.value, "77");
            assert_eq!(query.name, Some("mastodon".to_string()));
        }
        _ => panic!(),
    }
    let (s, a) = oauth_callback(s, CallbackEvent::OldLoaded(StoredToken::Found), &e);
    match a {
        CallbackAction::PostToken { url, request } => {
            assert_eq!(url, "https://m.social/oauth/token");
            assert_eq!(request.code, "code1");
        }
        _ => panic!(),
    }
    let (s, a) = oauth_callback(s, CallbackEvent::TokenPosted(TokenOutcome::Token("tok".into())), &e);
    assert!(matches!(a, CallbackAction::DeleteOldToken));
    let (s, a) = oauth_callback(s, CallbackEvent::OldDeleted(true), &e);
    match a {
        CallbackAction::SaveToken { record } => {
            assert_eq!(record.guild_id, "77");
            assert_eq!(record.name, "mastodon");
            assert!(record.active);
            assert_eq!(record.instance, "https://m.social");
            assert_eq!(record.data, "tok");
        }
        _ => panic!(),
    }
    let (s, a) = oauth_callback(s, CallbackEvent::NewSaved(true), &e);
    assert!(matches!(s, CallbackStage::Done));
    assert_eq!(reply_of(a), (200, "Success! You can now close this window and continue configuring your bot.".to_string()));
}

#[test]
fn callback_first_setup_saves_without_deleting() {
    let e = full_env();
    let (s, _) = oauth_callback(CallbackStage::Start, started(state()), &e);
    let (s, _) = oauth_callback(s, CallbackEvent::Verified(true), &e);
    let (s, a) = oauth_callback(s, CallbackEvent::OldLoaded(StoredToken::Absent), &e);
    assert!(matches!(a, CallbackAction::PostToken { .. }));
    let (s, a) = oauth_callback(s, CallbackEvent::TokenPosted(TokenOutcome::Token("tok".into())), &e);
    match a {
        CallbackAction::SaveToken { record } => {
            assert_eq!(record.guild_id, "77");
            assert_eq!(record.name, "mastodon");
            assert!(record.active);
            assert_eq!(record.instance, "https://m.social");
            assert_eq!(record.data, "tok");
        }
        _ => panic!("a first setup has nothing to delete"),
    }
    let (s, a) = oauth_callback(s, CallbackEvent::NewSaved(true), &e);
    assert!(matches!(s, CallbackStage::Done));
    assert_eq!(reply_of(a), (200, "Success! You can now close this window and continue configuring your bot.".to_string()));
}

#[test]
fn callback_failures_are_answered() {
    let e = full_env();
    let (_, a) = oauth_callback(CallbackStage::Start, started(None), &e);
    assert_eq!(reply_of(a), (400, "failed to validate state, please try again!".to_string()));

    let (s, _) = oauth_callback(CallbackStage::Start, started(state()), &e);
    let (_, a) = oauth_callback(s, CallbackEvent::Verified(false), &e);
    assert_eq!(reply_of(a), (406, "Failed to verify integrity of token. Please try again.".to_string()));

    let (s, _) = oauth_callback(CallbackStage::Start, started(state()), &env(&[]));
    let (_, a) = oauth_callback(s, CallbackEvent::Verified(true), &env(&[]));
    assert_eq!(reply_of(a), (500, "Missing MASTODON_CLIENT_ID".to_string()));

    let to_loading = || {
        let (s, _) = oauth_callback(CallbackStage::Start, started(state()), &e);
        oauth_callback(s, CallbackEvent::Verified(true), &e).0
    };
    let (_, a) = oauth_callback(to_loading(), CallbackEvent::OldLoaded(StoredToken::LookupFailed), &e);
    assert_eq!(reply_of(a), (500, "failed to update token database".to_string()));

    let to_posting = || oauth_callback(to_loading(), CallbackEvent::OldLoaded(StoredToken::Found), &e).0;
    let (_, a) = oauth_callback(to_posting(), CallbackEvent::TokenPosted(TokenOutcome::SendFailed), &e);
    assert_eq!(reply_of(a), (500, "Failed to request token from instance, please try again later.".to_string()));
    let (_, a) = oauth_callback(to_posting(), CallbackEvent::TokenPosted(TokenOutcome::BadResponse), &e);
    assert_eq!(reply_of(a), (500, "Failed to deserialize resposne from instance, please try again later.".to_string()));

    let to_deleting = || oauth_callback(to_posting(), CallbackEvent::TokenPosted(TokenOutcome::Token("t".into())), &e).0;
    let (_, a) = oauth_callback(to_deleting(), CallbackEvent::OldDeleted(false), &e);
    assert_eq!(reply_of(a), (500, "failed to delete old token from database".to_string()));

    let (s, _) = oauth_callback(to_deleting(), CallbackEvent::OldDeleted(true), &e);
    let (_, a) = oauth_callback(s, CallbackEvent::NewSaved(false), &e);
    assert_eq!(reply_of(a), (500, "Failed to save new token to database".to_string()));
}

#[test]
fn fulfilled_and_missing_partition_the_requirements() {
    let reqs = pairs(&[("A", "a"), ("B", "b"), ("C", "c"), ("D", "d")]);
    let p = ProviderRequirements::new(reqs.clone(), &env(&[("B", "1"), ("D", "1")]));
    assert_eq!(p.fulfilled.len() + p.missing.len(), reqs.len());
    for r in &reqs {
        assert!(p.fulfilled.contains(r) != p.missing.contains(r));
    }
}

#[test]
fn token_request_presents_the_authorizing_client() {
    let e = full_env();
    let client = MastodonProvider::create_client("https://m.social".into(), &e).unwrap();
    let (_, body) = MastodonProvider::request_token("https://m.social".into(), "c".into(), &e).unwrap();
    assert_eq!(body.client_id, client.client_id);
    assert_eq!(body.client_secret, client.client_secret);
    assert_eq!(body.redirect_uri, client.redirect_url);
}
