//! The decisions of the OAuth web routes: whether they are offered, how a token request
//! is answered, and the steps of the callback.

use vstd::prelude::*;
use crate::env::Environment;
use crate::entity::oauth::{ActiveModel, Model, Oauth, Select};
use crate::text::{decimal, join};
use super::common::{names, is_unmet};
use super::{check_requirements, url_base_requirement, url_base_requirements};
use super::mastodon::{MastodonProvider, RequestCodeQuery, RequestToken,
    ResponseState, authorization_url, create_client_spec, instance_url_spec, request_token_spec};

verus! {

/// A plain HTTP answer.
pub struct HttpReply {
    pub status: u16,
    pub body: String,
}

/// Builds an answer.
pub fn reply(status: u16, body: &str) -> (r: HttpReply)
    ensures
        r.status == status,
        r.body@ == body@,
{
    HttpReply { status, body: String::from_str(body) }
}

/// Which OAuth routes are offered.
pub enum OauthRoutes {
    /// The provider routes.
    Providers,
    /// Only a route that answers every request with `reply`; `warning` is logged.
    Unavailable { warning: String, reply: HttpReply },
}

/// The warning logged when the OAuth routes are not offered.
pub open spec fn unavailable_warning(missing: Seq<Seq<char>>) -> Seq<char> {
    "missing env: "@ + join(missing, ", "@) + " - oauth will not be available!"@
}

/// The OAuth routes: the providers' when `OAUTH_URL_BASE` is set, else a route that
/// refuses with 400 and a warning naming the missing variable.
pub fn init(env: &Environment) -> (r: OauthRoutes)
    ensures
        check_requirements_spec(env@) ==> r is Providers,
        !check_requirements_spec(env@) ==> (r matches OauthRoutes::Unavailable { warning, reply } && {
            &&& warning@ == unavailable_warning(names(url_base_requirement().filter(is_unmet(env@))))
            &&& reply.status == 400
            &&& reply.body@ == "sorry, oauth is not configured"@
        }),
{
    if check_requirements(env) {
        OauthRoutes::Providers
    } else {
        let requirements = url_base_requirements(env);
        let mut warning = String::from_str("missing env: ");
        let list = requirements.get_missing_list_str();
        warning.append(list.as_str());
        warning.append(" - oauth will not be available!");
        OauthRoutes::Unavailable { warning, reply: reply(400, "sorry, oauth is not configured") }
    }
}

/// OAuth is available when `OAUTH_URL_BASE` is set to a non-empty value.
pub open spec fn check_requirements_spec(env: Seq<(Seq<char>, Seq<char>)>) -> bool {
    crate::env::has_env_spec(env, "OAUTH_URL_BASE"@)
}

/// How a request for a token is answered.
pub enum TokenRequestAnswer {
    /// Redirect to this authorization url.
    Redirect(String),
    /// Answer with this error.
    Reply(HttpReply),
}

/// Answers a request for a token, given how many guilds with the requested id are
/// registered (`None` when the database query failed): a database failure is a 500,
/// an unknown guild a 400, and a known one is sent to its authorization url, whose
/// state `serialize` writes, or gets a 500 carrying the error when the url cannot be
/// built.
pub fn request_token<F: FnOnce(ResponseState) -> String>(count: Option<u64>, query: RequestCodeQuery,
    env: &Environment, serialize: F) -> (r: TokenRequestAnswer)
    requires
        forall|st: ResponseState| serialize.requires((st,)),
    ensures
        count is None ==> (r matches TokenRequestAnswer::Reply(a)
            && a.status == 500 && a.body@ == "failed to query database"@),
        count == Some(0u64) ==> (r matches TokenRequestAnswer::Reply(a)
            && a.status == 400 && a.body@ == "guild not registered"@),
        (count matches Some(n) && n > 0) ==> ({
            let force = match query.force_insecure { Some(b) => b, None => false };
            let url = instance_url_spec(query.instance@, force);
            match create_client_spec(env@, url) {
                Ok(c) => r matches TokenRequestAnswer::Redirect(u)
                    && authorization_url(serialize, c, query.guild, url, u@),
                Err(e) => r matches TokenRequestAnswer::Reply(a) && a.status == 500 && a.body@ == e,
            }
        }),
{
    match count {
        None => TokenRequestAnswer::Reply(reply(500, "failed to query database")),
        Some(n) => {
            if n > 0 {
                let force = match query.force_insecure { Some(b) => b, None => false };
                match MastodonProvider::request_auth(query.guild, query.instance, force, env, serialize) {
                    Ok((url, _token)) => TokenRequestAnswer::Redirect(url),
                    Err(e) => TokenRequestAnswer::Reply(HttpReply { status: 500, body: e }),
                }
            } else {
                TokenRequestAnswer::Reply(reply(400, "guild not registered"))
            }
        },
    }
}

/// What came of posting the token request to the instance.
pub enum TokenOutcome {
    /// The request could not be sent.
    SendFailed,
    /// The answer was not a token.
    BadResponse,
    /// The instance granted this token.
    Token(String),
}

/// What the lookup of a guild's stored Mastodon token found.
pub enum StoredToken {
    /// The guild has a stored token.
    Found,
    /// The guild has none yet: this is its first setup.
    Absent,
    /// The database could not be queried.
    LookupFailed,
}

/// Where a callback stands.
pub enum CallbackStage {
    /// Nothing has happened yet.
    Start,
    /// The code of `guild` at `instance` is being checked.
    Verifying { guild: u64, instance: String, code: String },
    /// The guild's stored token is being loaded; the token request is ready.
    LoadingOld { guild: u64, instance: String, url: String, request: RequestToken },
    /// The token request was sent; `had_old` tells whether the guild had a stored token.
    Posting { guild: u64, instance: String, had_old: bool },
    /// The old token is being deleted; `token` is the new one.
    Deleting { guild: u64, instance: String, token: String },
    /// The new token is being saved.
    Saving,
    /// The callback was answered.
    Done,
}

/// What the outside world reports back to the callback.
pub enum CallbackEvent {
    /// The query arrived; `state` is its parsed state, `None` when it did not parse.
    Started { code: String, state: Option<ResponseState> },
    /// The code was checked.
    Verified(bool),
    /// The lookup of the guild's stored token came back.
    OldLoaded(StoredToken),
    /// The token request was posted.
    TokenPosted(TokenOutcome),
    /// The old token was deleted (`true`) or the deletion failed.
    OldDeleted(bool),
    /// The new token was saved (`true`) or saving failed.
    NewSaved(bool),
}

/// What the callback asks the outside world to do next.
pub enum CallbackAction {
    VerifyCode { code: String, guild: u64 },
    LoadOldToken { query: Select },
    PostToken { url: String, request: RequestToken },
    DeleteOldToken,
    SaveToken { record: ActiveModel },
    Reply(HttpReply),
}

/// The event that the callback waits for at `stage`.
pub open spec fn expects(stage: CallbackStage, event: CallbackEvent) -> bool {
    match stage {
        CallbackStage::Start => event is Started,
        CallbackStage::Verifying { .. } => event is Verified,
        CallbackStage::LoadingOld { .. } => event is OldLoaded,
        CallbackStage::Posting { .. } => event is TokenPosted,
        CallbackStage::Deleting { .. } => event is OldDeleted,
        CallbackStage::Saving => event is NewSaved,
        CallbackStage::Done => false,
    }
}

/// `q` selects exactly the Mastodon tokens stored for `guild`.
pub open spec fn selects_stored_token(q: Select, guild: u64) -> bool {
    forall|m: Model| #[trigger] q.selects(m) <==> (m.guild_id@ == decimal(guild as nat) && m.name@ == "mastodon"@)
}

/// `a` is the answer `status` with the text `body`.
pub open spec fn is_reply(a: CallbackAction, status: u16, body: Seq<char>) -> bool {
    a matches CallbackAction::Reply(r) && r.status == status && r.body@ == body
}

/// `record` is the active Mastodon token `token` of `guild` at `instance`.
pub open spec fn saves_token(record: ActiveModel, guild: u64, instance: Seq<char>, token: Seq<char>) -> bool {
    &&& record.guild_id@ == decimal(guild as nat)
    &&& record.name@ == "mastodon"@
    &&& record.active
    &&& record.instance@ == instance
    &&& record.data@ == token
}

/// One step of the OAuth callback: parse the state, check the code, build the token
/// request, look up the stored token, post the request, delete the stored token when
/// there is one (on a first setup there is none), save the new one, and answer. Each
/// failure ends the callback with its answer.
pub fn oauth_callback(stage: CallbackStage, event: CallbackEvent, env: &Environment)
    -> (r: (CallbackStage, CallbackAction))
    requires
        expects(stage, event),
    ensures
        match (stage, event) {
            (CallbackStage::Start, CallbackEvent::Started { code, state: None }) =>
                r.0 is Done && is_reply(r.1, 400, "failed to validate state, please try again!"@),
            (CallbackStage::Start, CallbackEvent::Started { code, state: Some(s) }) =>
                (r.0 matches CallbackStage::Verifying { guild, instance, code: c }
                    && guild == s.guild && instance@ == s.instance@ && c@ == code@)
                && (r.1 matches CallbackAction::VerifyCode { code: c, guild } && c@ == code@ && guild == s.guild),
            (CallbackStage::Verifying { .. }, CallbackEvent::Verified(false)) =>
                r.0 is Done && is_reply(r.1, 406, "Failed to verify integrity of token. Please try again."@),
            (CallbackStage::Verifying { guild, instance, code }, CallbackEvent::Verified(true)) =>
                match request_token_spec(env@, instance@, code@) {
                    Err(e) => r.0 is Done && is_reply(r.1, 500, e),
                    Ok((url, body)) => (r.0 matches CallbackStage::LoadingOld { guild: g, instance: i, url: u, request }
                        && g == guild && i@ == instance@ && u@ == url && request@ == body)
                        && (r.1 matches CallbackAction::LoadOldToken { query } && selects_stored_token(query, guild)),
                },
            (CallbackStage::LoadingOld { .. }, CallbackEvent::OldLoaded(StoredToken::LookupFailed)) =>
                r.0 is Done && is_reply(r.1, 500, "failed to update token database"@),
            (CallbackStage::LoadingOld { guild, instance, url, request }, CallbackEvent::OldLoaded(found)) =>
                (r.0 matches CallbackStage::Posting { guild: g, instance: i, had_old }
                    && g == guild && i@ == instance@ && had_old == (found is Found))
                && (r.1 matches CallbackAction::PostToken { url: u, request: q } && u@ == url@ && q@ == request@),
            (CallbackStage::Posting { .. }, CallbackEvent::TokenPosted(TokenOutcome::SendFailed)) =>
                r.0 is Done && is_reply(r.1, 500, "Failed to request token from instance, please try again later."@),
            (CallbackStage::Posting { .. }, CallbackEvent::TokenPosted(TokenOutcome::BadResponse)) =>
                r.0 is Done && is_reply(r.1, 500, "Failed to deserialize resposne from instance, please try again later."@),
            (CallbackStage::Posting { guild, instance, had_old: true }, CallbackEvent::TokenPosted(TokenOutcome::Token(t))) =>
                (r.0 matches CallbackStage::Deleting { guild: g, instance: i, token } && g == guild
                    && i@ == instance@ && token@ == t@)
                && r.1 is DeleteOldToken,
            (CallbackStage::Posting { guild, instance, had_old: false }, CallbackEvent::TokenPosted(TokenOutcome::Token(t))) =>
                r.0 is Saving && (r.1 matches CallbackAction::SaveToken { record } && saves_token(record, guild, instance@, t@)),
            (CallbackStage::Deleting { .. }, CallbackEvent::OldDeleted(false)) =>
                r.0 is Done && is_reply(r.1, 500, "failed to delete old token from database"@),
            (CallbackStage::Deleting { guild, instance, token }, CallbackEvent::OldDeleted(true)) =>
                r.0 is Saving && (r.1 matches CallbackAction::SaveToken { record } && saves_token(record, guild, instance@, token@)),
            (CallbackStage::Saving, CallbackEvent::NewSaved(false)) =>
                r.0 is Done && is_reply(r.1, 500, "Failed to save new token to database"@),
            (CallbackStage::Saving, CallbackEvent::NewSaved(true)) =>
                r.0 is Done && is_reply(r.1, 200,
                    "Success! You can now close this window and continue configuring your bot."@),
            _ => false,
        },
{
    match (stage, event) {
        (CallbackStage::Start, CallbackEvent::Started { code, state }) => match state {
            None => (CallbackStage::Done,
                CallbackAction::Reply(reply(400, "failed to validate state, please try again!"))),
            Some(s) => (
                CallbackStage::Verifying { guild: s.guild, instance: s.instance, code: code.clone() },
                CallbackAction::VerifyCode { code, guild: s.guild },
            ),
        },
        (CallbackStage::Verifying { guild, instance, code }, CallbackEvent::Verified(ok)) => {
            if !ok {
                (CallbackStage::Done,
                    CallbackAction::Reply(reply(406, "Failed to verify integrity of token. Please try again.")))
            } else {
                match MastodonProvider::request_token(instance.clone(), code, env) {
                    Err(e) => (CallbackStage::Done, CallbackAction::Reply(HttpReply { status: 500, body: e })),
                    Ok((url, request)) => (
                        CallbackStage::LoadingOld { guild, instance, url, request },
                        CallbackAction::LoadOldToken {
                            query: Oauth::find_by_guild(guild).with_name(String::from_str("mastodon")),
                        },
                    ),
                }
            }
        },
        (CallbackStage::LoadingOld { guild, instance, url, request }, CallbackEvent::OldLoaded(found)) => match found {
            StoredToken::LookupFailed =>
                (CallbackStage::Done, CallbackAction::Reply(reply(500, "failed to update token database"))),
            StoredToken::Found =>
                (CallbackStage::Posting { guild, instance, had_old: true }, CallbackAction::PostToken { url, request }),
            StoredToken::Absent =>
                (CallbackStage::Posting { guild, instance, had_old: false }, CallbackAction::PostToken { url, request }),
        },
        (CallbackStage::Posting { guild, instance, had_old }, CallbackEvent::TokenPosted(outcome)) => match outcome {
            TokenOutcome::SendFailed => (CallbackStage::Done, CallbackAction::Reply(
                reply(500, "Failed to request token from instance, please try again later."))),
            TokenOutcome::BadResponse => (CallbackStage::Done, CallbackAction::Reply(
                reply(500, "Failed to deserialize resposne from instance, please try again later."))),
            TokenOutcome::Token(token) => if had_old {
                (CallbackStage::Deleting { guild, instance, token }, CallbackAction::DeleteOldToken)
            } else {
                let record = ActiveModel::create_oauth(guild, String::from_str("mastodon"), true, instance, token);
                (CallbackStage::Saving, CallbackAction::SaveToken { record })
            },
        },
        (CallbackStage::Deleting { guild, instance, token }, CallbackEvent::OldDeleted(deleted)) => {
            if !deleted {
                (CallbackStage::Done, CallbackAction::Reply(reply(500, "failed to delete old token from database")))
            } else {
                let record = ActiveModel::create_oauth(guild, String::from_str("mastodon"), true, instance, token);
                (CallbackStage::Saving, CallbackAction::SaveToken { record })
            }
        },
        (CallbackStage::Saving, CallbackEvent::NewSaved(saved)) => {
            if !saved {
                (CallbackStage::Done, CallbackAction::Reply(reply(500, "Failed to save new token to database")))
            } else {
                (CallbackStage::Done, CallbackAction::Reply(
                    reply(200, "Success! You can now close this window and continue configuring your bot.")))
            }
        },
        _ => {
            proof {
                assert(false);
            }
            (CallbackStage::Done, CallbackAction::DeleteOldToken)
        },
    }
}

} // verus!
