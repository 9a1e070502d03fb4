//! The Mastodon provider: its requirements, the authorization request, the token
//! request and the status post.

use vstd::prelude::*;
use oauth2::basic::BasicClient;
use oauth2::{AuthUrl, ClientId, ClientSecret, CsrfToken, RedirectUrl, ResponseType, Scope};
use crate::env::{Environment, env_var, lookup_env, missing_message, pairs_view};
use crate::ui::opt_view;
use super::common::{ProviderRequirements, is_met, is_unmet};

verus! {

/// The Mastodon OAuth provider.
pub struct MastodonProvider;

/// The state passed through the authorization: the guild and the instance's base url.
pub struct ResponseState {
    pub guild: u64,
    pub instance: String,
}

/// The query of a request for a token: the guild, the instance's host, and whether to
/// use plain http.
pub struct RequestCodeQuery {
    pub guild: u64,
    pub instance: String,
    pub force_insecure: Option<bool>,
}

/// The query with which the instance calls back: the code and the state.
pub struct ResponseCodeQuery {
    pub code: String,
    pub state: String,
}

/// The token the instance answers with.
pub struct ResponseToken {
    pub access_token: String,
}

/// The body of the token request.
pub struct RequestToken {
    pub grant_type: String,
    pub code: String,
    pub client_id: String,
    pub client_secret: String,
    pub redirect_uri: String,
    pub scope: String,
}

/// The view of a token request.
pub struct RequestTokenView {
    pub grant_type: Seq<char>,
    pub code: Seq<char>,
    pub client_id: Seq<char>,
    pub client_secret: Seq<char>,
    pub redirect_uri: Seq<char>,
    pub scope: Seq<char>,
}

impl View for RequestToken {
    type V = RequestTokenView;

    open spec fn view(&self) -> RequestTokenView {
        RequestTokenView {
            grant_type: self.grant_type@,
            code: self.code@,
            client_id: self.client_id@,
            client_secret: self.client_secret@,
            redirect_uri: self.redirect_uri@,
            scope: self.scope@,
        }
    }
}

/// What the OAuth client is built from.
pub struct ClientConfig {
    pub client_id: String,
    pub client_secret: String,
    pub auth_url: String,
    pub redirect_url: String,
}

/// The view of a client configuration: id, secret, authorization url, redirect url.
pub open spec fn client_view(c: ClientConfig) -> (Seq<char>, Seq<char>, Seq<char>, Seq<char>) {
    (c.client_id@, c.client_secret@, c.auth_url@, c.redirect_url@)
}

/// A status to post: where, with which token, and its text.
pub struct StatusRequest {
    pub endpoint: String,
    pub token: String,
    pub status: String,
}

/// The variable holding the base url of the OAuth routes.
pub open spec fn url_base_var() -> Seq<char> {
    "OAUTH_URL_BASE"@
}

/// The url of the request route under the base `base`.
pub open spec fn request_url_spec(base: Seq<char>) -> Seq<char> {
    base + "/mastodon/request"@
}

/// The url of the callback route under the base `base`.
pub open spec fn callback_url_spec(base: Seq<char>) -> Seq<char> {
    base + "/mastodon/callback"@
}

/// What `url::Url::parse` reports for `s`: `None` when it accepts the url, else the
/// error's message.
pub uninterp spec fn url_parse_error(s: Seq<char>) -> Option<Seq<char>>;

/// `url::Url::parse`, which `oauth2::AuthUrl::new` and `oauth2::RedirectUrl::new` call
/// to validate their url: gives `None` when `s` parses, else the text of the parse error.
#[verifier::external_body]
fn check_url(s: &str) -> (r: Option<String>)
    ensures
        opt_view(r) == url_parse_error(s@),
{
    match oauth2::url::Url::parse(s) {
        Ok(_) => None,
        Err(e) => Some(e.to_string()),
    }
}

/// The authorization url that `oauth2` builds for the client made of `client_id`,
/// `client_secret`, `auth_url` and `redirect_url`, asking for `scope` with the response
/// type `response_type` and carrying `csrf_state` as its state.
pub uninterp spec fn authorize_url_spec(client_id: Seq<char>, client_secret: Seq<char>, auth_url: Seq<char>,
    redirect_url: Seq<char>, scope: Seq<char>, response_type: Seq<char>, csrf_state: Seq<char>) -> Seq<char>;

/// `oauth2::Client::authorize_url` on the client of `client` with `csrf_state` as state,
/// the scope `scope`, the implicit flow and then the response type `response_type`, and
/// `AuthorizationRequest::url`: gives the url, named by `authorize_url_spec`, and the
/// CSRF token, which is the state handed in. The two urls parse (`AuthUrl::new` and
/// `RedirectUrl::new` fail exactly where `url::Url::parse` does).
#[verifier::external_body]
fn oauth2_authorize_url(client: &ClientConfig, scope: &str, response_type: &str, csrf_state: &str)
    -> (r: (String, String))
    requires
        url_parse_error(client.auth_url@) is None,
        url_parse_error(client.redirect_url@) is None,
    ensures
        r.0@ == authorize_url_spec(client.client_id@, client.client_secret@, client.auth_url@,
            client.redirect_url@, scope@, response_type@, csrf_state@),
        r.1@ == csrf_state@,
{
    let token = CsrfToken::new(csrf_state.to_string());
    let (url, token) = BasicClient::new(
        ClientId::new(client.client_id.clone()),
        Some(ClientSecret::new(client.client_secret.clone())),
        AuthUrl::new(client.auth_url.clone()).unwrap(),
        None,
    )
    .set_redirect_uri(RedirectUrl::new(client.redirect_url.clone()).unwrap())
    .authorize_url(move || token)
    .add_scope(Scope::new(scope.to_string()))
    .use_implicit_flow()
    .set_response_type(&ResponseType::new(response_type.to_string()))
    .url();
    (url.to_string(), token.secret().clone())
}

/// `url` is the authorization url, and `token` its state, for `guild` at `instance_url`
/// with the client `client`: the state is what `serialize` made of the guild and the
/// instance url, and the url asks for `write:statuses` with the response type `code`.
pub open spec fn authorizes<F: FnOnce(ResponseState) -> String>(serialize: F,
    client: (Seq<char>, Seq<char>, Seq<char>, Seq<char>), guild: u64, instance_url: Seq<char>,
    url: Seq<char>, token: Seq<char>) -> bool
{
    exists|st: ResponseState, s: String|
        #![trigger serialize.ensures((st,), s)]
        {
            &&& st.guild == guild
            &&& st.instance@ == instance_url
            &&& serialize.ensures((st,), s)
            &&& token == s@
            &&& url == authorize_url_spec(client.0, client.1, client.2, client.3,
                "write:statuses"@, "code"@, s@)
        }
}

/// `url` is the authorization url for `guild` at `instance_url` with the client
/// `client`, for some state that `serialize` made of the guild and the instance url.
pub open spec fn authorization_url<F: FnOnce(ResponseState) -> String>(serialize: F,
    client: (Seq<char>, Seq<char>, Seq<char>, Seq<char>), guild: u64, instance_url: Seq<char>,
    url: Seq<char>) -> bool
{
    exists|st: ResponseState, s: String|
        #![trigger serialize.ensures((st,), s)]
        {
            &&& st.guild == guild
            &&& st.instance@ == instance_url
            &&& serialize.ensures((st,), s)
            &&& url == authorize_url_spec(client.0, client.1, client.2, client.3,
                "write:statuses"@, "code"@, s@)
        }
}

/// The variable `name` as a result: its value, or `Missing <name>`.
pub open spec fn var(env: Seq<(Seq<char>, Seq<char>)>, name: Seq<char>) -> Result<Seq<char>, Seq<char>> {
    match lookup_env(env, name) {
        Some(v) => Ok(v),
        None => Err(missing_message(name)),
    }
}

/// The token request for `code` against the instance at `instance`: its url and body,
/// or the first missing variable among the client id, the client secret and the base url.
pub open spec fn request_token_spec(env: Seq<(Seq<char>, Seq<char>)>, instance: Seq<char>, code: Seq<char>)
    -> Result<(Seq<char>, RequestTokenView), Seq<char>>
{
    match (var(env, "MASTODON_CLIENT_ID"@), var(env, "MASTODON_CLIENT_SECRET"@), var(env, url_base_var())) {
        (Err(e), _, _) => Err(e),
        (Ok(_), Err(e), _) => Err(e),
        (Ok(_), Ok(_), Err(e)) => Err(e),
        (Ok(id), Ok(secret), Ok(base)) => Ok((
            instance + "/oauth/token"@,
            RequestTokenView {
                grant_type: "authorization_code"@,
                code: code,
                client_id: id,
                client_secret: secret,
                redirect_uri: callback_url_spec(base),
                scope: "write:statuses"@,
            },
        )),
    }
}

/// The client for the instance at `instance_url`, or the first error: a missing client
/// id or secret, an authorization url that does not parse, a missing base url, a
/// redirect url that does not parse.
pub open spec fn create_client_spec(env: Seq<(Seq<char>, Seq<char>)>, instance_url: Seq<char>)
    -> Result<(Seq<char>, Seq<char>, Seq<char>, Seq<char>), Seq<char>>
{
    let auth_url = instance_url + "/oauth/authorize"@;
    match (var(env, "MASTODON_CLIENT_ID"@), var(env, "MASTODON_CLIENT_SECRET"@)) {
        (Err(e), _) => Err(e),
        (Ok(_), Err(e)) => Err(e),
        (Ok(id), Ok(secret)) => match url_parse_error(auth_url) {
            Some(e) => Err(e),
            None => match var(env, url_base_var()) {
                Err(e) => Err(e),
                Ok(base) => match url_parse_error(callback_url_spec(base)) {
                    Some(e) => Err(e),
                    None => Ok((id, secret, auth_url, callback_url_spec(base))),
                },
            },
        },
    }
}

/// The base url of an instance: `https://<instance>`, or `http://<instance>` when
/// plain http is forced.
pub open spec fn instance_url_spec(instance: Seq<char>, force_insecure: bool) -> Seq<char> {
    "http"@ + (if force_insecure { Seq::empty() } else { "s"@ }) + "://"@ + instance
}

fn var_of(env: &Environment, name: &str) -> (r: Result<String, String>)
    ensures
        match r {
            Ok(v) => var(env@, name@) == Ok::<Seq<char>, Seq<char>>(v@),
            Err(e) => var(env@, name@) == Err::<Seq<char>, Seq<char>>(e@),
        },
{
    env_var(env, name)
}

impl MastodonProvider {
    /// The two variables Mastodon needs: the client id and the client secret.
    pub open spec fn requirement_list() -> Seq<(Seq<char>, Seq<char>)> {
        seq![("MASTODON_CLIENT_ID"@, "client id"@), ("MASTODON_CLIENT_SECRET"@, "client secret"@)]
    }

    /// `p` is what `get_requirements` gives in the environment `env`.
    pub open spec fn requirements_of(env: Seq<(Seq<char>, Seq<char>)>, p: ProviderRequirements) -> bool {
        &&& pairs_view(p.fulfilled@) == Self::requirement_list().filter(is_met(env))
        &&& pairs_view(p.missing@) == Self::requirement_list().filter(is_unmet(env))
    }

    /// Which of Mastodon's variables are set.
    pub fn get_requirements(env: &Environment) -> (p: ProviderRequirements)
        ensures
            p.wf(),
            Self::requirements_of(env@, p),
    {
        let reqs = vec![
            (String::from_str("MASTODON_CLIENT_ID"), String::from_str("client id")),
            (String::from_str("MASTODON_CLIENT_SECRET"), String::from_str("client secret")),
        ];
        assert(pairs_view(reqs@) =~= Self::requirement_list());
        ProviderRequirements::new(reqs, env)
    }

    /// The url of the route that starts an authorization, passed through `f` when it is
    /// given; `None` when `OAUTH_URL_BASE` is not set.
    pub fn get_url<F: FnOnce(String) -> String>(env: &Environment, f: Option<F>) -> (r: Option<String>)
        requires
            f matches Some(g) ==> forall|u: String| g.requires((u,)),
        ensures
            lookup_env(env@, url_base_var()) is None ==> r is None,
            lookup_env(env@, url_base_var()) matches Some(base) ==> (r matches Some(s) && match f {
                None => s@ == request_url_spec(base),
                Some(g) => exists|u: String| u@ == request_url_spec(base) && g.ensures((u,), s),
            }),
    {
        match env_var(env, "OAUTH_URL_BASE") {
            Ok(base) => {
                let mut url = base;
                url.append("/mastodon/request");
                match f {
                    Some(g) => Some(g(url)),
                    None => Some(url),
                }
            },
            Err(_) => None,
        }
    }

    /// The url and body of the request that trades `code` for a token at `instance`.
    pub fn request_token(instance: String, code: String, env: &Environment) -> (r: Result<(String, RequestToken), String>)
        ensures
            match r {
                Ok((url, body)) => request_token_spec(env@, instance@, code@)
                    == Ok::<(Seq<char>, RequestTokenView), Seq<char>>((url@, body@)),
                Err(e) => request_token_spec(env@, instance@, code@)
                    == Err::<(Seq<char>, RequestTokenView), Seq<char>>(e@),
            },
    {
        let mut url = instance;
        url.append("/oauth/token");
        let client_id = match var_of(env, "MASTODON_CLIENT_ID") {
            Ok(v) => v,
            Err(e) => return Err(e),
        };
        let client_secret = match var_of(env, "MASTODON_CLIENT_SECRET") {
            Ok(v) => v,
            Err(e) => return Err(e),
        };
        let mut redirect_uri = match var_of(env, "OAUTH_URL_BASE") {
            Ok(v) => v,
            Err(e) => return Err(e),
        };
        redirect_uri.append("/mastodon/callback");
        let body = RequestToken {
            client_id,
            client_secret,
            grant_type: String::from_str("authorization_code"),
            code,
            redirect_uri,
            scope: String::from_str("write:statuses"),
        };
        Ok((url, body))
    }

    /// What the OAuth client for the instance at `instance_url` is built from.
    pub fn create_client(instance_url: String, env: &Environment) -> (r: Result<ClientConfig, String>)
        ensures
            match r {
                Ok(c) => create_client_spec(env@, instance_url@)
                    == Ok::<(Seq<char>, Seq<char>, Seq<char>, Seq<char>), Seq<char>>(client_view(c)),
                Err(e) => create_client_spec(env@, instance_url@)
                    == Err::<(Seq<char>, Seq<char>, Seq<char>, Seq<char>), Seq<char>>(e@),
            },
    {
        let client_id = match var_of(env, "MASTODON_CLIENT_ID") {
            Ok(v) => v,
            Err(e) => return Err(e),
        };
        let client_secret = match var_of(env, "MASTODON_CLIENT_SECRET") {
            Ok(v) => v,
            Err(e) => return Err(e),
        };
        let mut auth_url = instance_url;
        auth_url.append("/oauth/authorize");
        match check_url(auth_url.as_str()) {
            Some(e) => return Err(e),
            None => {},
        }
        let mut redirect_url = match var_of(env, "OAUTH_URL_BASE") {
            Ok(v) => v,
            Err(e) => return Err(e),
        };
        redirect_url.append("/mastodon/callback");
        match check_url(redirect_url.as_str()) {
            Some(e) => return Err(e),
            None => {},
        }
        Ok(ClientConfig { client_id, client_secret, auth_url, redirect_url })
    }

    /// The authorization url for `guild` at `instance`, and its CSRF token: the state
    /// is the guild and the instance url as `serialize` writes them, the scope is
    /// `write:statuses` and the response type `code`. Fails where the client cannot be
    /// built.
    pub fn request_auth<F: FnOnce(ResponseState) -> String>(guild: u64, instance: String, force_insecure: bool,
        env: &Environment, serialize: F) -> (r: Result<(String, String), String>)
        requires
            forall|st: ResponseState| serialize.requires((st,)),
        ensures
            match r {
                Ok((url, token)) => create_client_spec(env@, instance_url_spec(instance@, force_insecure))
                    matches Ok(c) && authorizes(serialize, c, guild, instance_url_spec(instance@, force_insecure),
                        url@, token@),
                Err(e) => create_client_spec(env@, instance_url_spec(instance@, force_insecure))
                    == Err::<(Seq<char>, Seq<char>, Seq<char>, Seq<char>), Seq<char>>(e@),
            },
    {
        let mut instance_url = String::from_str("http");
        if !force_insecure {
            instance_url.append("s");
        }
        instance_url.append("://");
        instance_url.append(instance.as_str());
        assert(instance_url@ =~= instance_url_spec(instance@, force_insecure));
        let client = match Self::create_client(instance_url.clone(), env) {
            Ok(c) => c,
            Err(e) => return Err(e),
        };
        let state = ResponseState { guild, instance: instance_url };
        let serialized = serialize(state);
        let (url, token) = oauth2_authorize_url(&client, "write:statuses", "code", serialized.as_str());
        Ok((url, token))
    }

    /// Checks the code of a callback; every code is accepted.
    pub fn verify_code(code: &String, state: u64) -> (r: bool)
        ensures
            r,
    {
        true
    }

    /// The status post for `config`: to `<instance>/api/v1/statuses`, with the stored
    /// token, carrying `status`.
    pub fn publish_request(config: &crate::entity::oauth::Model, status: String) -> (r: StatusRequest)
        ensures
            r.endpoint@ == config.instance@ + "/api/v1/statuses"@,
            r.token@ == config.data@,
            r.status@ == status@,
    {
        let mut endpoint = config.instance.clone();
        endpoint.append("/api/v1/statuses");
        StatusRequest { endpoint, token: config.data.clone(), status }
    }
}

/// The token request presents the client that started the authorization: in one
/// environment, whenever both can be built, the token request carries the same client
/// id, client secret and redirect uri as the authorization client, as OAuth requires.
pub proof fn lemma_token_request_matches_client(env: Seq<(Seq<char>, Seq<char>)>, instance_url: Seq<char>,
    token_instance: Seq<char>, code: Seq<char>)
    requires
        create_client_spec(env, instance_url) is Ok,
        request_token_spec(env, token_instance, code) is Ok,
    ensures
        ({
            let (id, secret, auth_url, redirect) = create_client_spec(env, instance_url)->Ok_0;
            let (url, body) = request_token_spec(env, token_instance, code)->Ok_0;
            &&& body.client_id == id
            &&& body.client_secret == secret
            &&& body.redirect_uri == redirect
        }),
{
}

/// A client can only be built when the token request can be too: every variable the
/// token request needs is one the client needs.
pub proof fn lemma_client_implies_token_request(env: Seq<(Seq<char>, Seq<char>)>, instance_url: Seq<char>,
    token_instance: Seq<char>, code: Seq<char>)
    requires
        create_client_spec(env, instance_url) is Ok,
    ensures
        request_token_spec(env, token_instance, code) is Ok,
{
}

} // verus!
