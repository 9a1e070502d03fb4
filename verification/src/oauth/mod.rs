//! OAuth providers and the environment they need.

pub mod common;
pub mod mastodon;
pub mod router;

use vstd::prelude::*;
use crate::env::{Environment, has_env, has_env_spec, pairs_view};
use common::ProviderRequirements;
use mastodon::MastodonProvider;

verus! {

/// The requirements of each provider, by provider name.
pub struct OauthRequirements {
    pub providers: Vec<(String, ProviderRequirements)>,
}

impl OauthRequirements {
    /// No two providers share a name, so a name finds at most one provider.
    pub open spec fn wf(&self) -> bool {
        forall|i: int, j: int| 0 <= i < j < self.providers@.len()
            ==> (#[trigger] self.providers@[i]).0@ != (#[trigger] self.providers@[j]).0@
    }

    /// The requirements of the provider called `name`, if there is one (the first, were
    /// two to share the name).
    pub fn get(&self, name: &str) -> (r: Option<&ProviderRequirements>)
        ensures
            self.wf() ==> (r matches Some(p) ==> forall|i: int| 0 <= i < self.providers@.len()
                && (#[trigger] self.providers@[i]).0@ == name@ ==> self.providers@[i].1 == *p),
            r is Some <==> exists|i: int| 0 <= i < self.providers@.len()
                && (#[trigger] self.providers@[i]).0@ == name@,
            r matches Some(p) ==> exists|i: int| 0 <= i < self.providers@.len()
                && (#[trigger] self.providers@[i]).0@ == name@
                && self.providers@[i].1 == *p
                && forall|j: int| 0 <= j < i ==> self.providers@[j].0@ != name@,
    {
        let key = String::from_str(name);
        let mut i: usize = 0;
        while i < self.providers.len()
            invariant
                i <= self.providers.len(),
                key@ == name@,
                forall|j: int| 0 <= j < i ==> (#[trigger] self.providers@[j]).0@ != name@,
            decreases self.providers.len() - i,
        {
            if self.providers[i].0 == key {
                return Some(&self.providers[i].1);
            }
            i = i + 1;
        }
        None
    }
}

/// The requirements of every provider: only Mastodon, under the name `mastodon`.
pub fn get_requirements(env: &Environment) -> (r: OauthRequirements)
    ensures
        r.wf(),
        r.providers@.len() == 1,
        r.providers@[0].0@ == "mastodon"@,
        r.providers@[0].1.wf(),
        MastodonProvider::requirements_of(env@, r.providers@[0].1),
{
    let mut providers: Vec<(String, ProviderRequirements)> = Vec::new();
    providers.push((String::from_str("mastodon"), MastodonProvider::get_requirements(env)));
    OauthRequirements { providers }
}

/// OAuth is available when `OAUTH_URL_BASE` is set to a non-empty value.
pub fn check_requirements(env: &Environment) -> (r: bool)
    ensures
        r == has_env_spec(env@, "OAUTH_URL_BASE"@),
{
    has_env(env, "OAUTH_URL_BASE")
}

/// The requirement that the OAuth routes need, as listed in the warning logged when it is
/// missing.
pub fn url_base_requirements(env: &Environment) -> (p: ProviderRequirements)
    ensures
        p.wf(),
        pairs_view(p.fulfilled@) == url_base_requirement().filter(common::is_met(env@)),
        pairs_view(p.missing@) == url_base_requirement().filter(common::is_unmet(env@)),
{
    ProviderRequirements::new(url_base_requirement_list(), env)
}

/// The single requirement of the OAuth routes: `OAUTH_URL_BASE` ("oauth url base").
pub open spec fn url_base_requirement() -> Seq<(Seq<char>, Seq<char>)> {
    seq![("OAUTH_URL_BASE"@, "oauth url base"@)]
}

/// The requirement list of the OAuth routes.
pub fn url_base_requirement_list() -> (v: Vec<(String, String)>)
    ensures
        pairs_view(v@) == url_base_requirement(),
{
    let v = vec![(String::from_str("OAUTH_URL_BASE"), String::from_str("oauth url base"))];
    assert(pairs_view(v@) =~= seq![("OAUTH_URL_BASE"@, "oauth url base"@)]);
    v
}

} // verus!
