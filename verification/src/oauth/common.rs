//! Which environment variables an OAuth provider needs, and which of them are set.

use vstd::prelude::*;
use crate::env::{Environment, has_env, has_env_spec, pairs_view};
use crate::text::{join, join_strings, views};

verus! {

/// A requirement is met when its variable is set to a non-empty value.
pub open spec fn is_met(env: Seq<(Seq<char>, Seq<char>)>) -> spec_fn((Seq<char>, Seq<char>)) -> bool {
    |r: (Seq<char>, Seq<char>)| has_env_spec(env, r.0)
}

/// A requirement is missing when its variable is unset or empty.
pub open spec fn is_unmet(env: Seq<(Seq<char>, Seq<char>)>) -> spec_fn((Seq<char>, Seq<char>)) -> bool {
    |r: (Seq<char>, Seq<char>)| !has_env_spec(env, r.0)
}

/// The variable names of a list of requirements.
pub open spec fn names(reqs: Seq<(Seq<char>, Seq<char>)>) -> Seq<Seq<char>> {
    reqs.map_values(|r: (Seq<char>, Seq<char>)| r.0)
}

/// The requirements of a provider: pairs of a variable name and a description,
/// split into those that the environment fulfils and those it does not.
pub struct ProviderRequirements {
    pub fulfilled: Vec<(String, String)>,
    pub missing: Vec<(String, String)>,
    pub has_missing: bool,
}

impl ProviderRequirements {
    /// `has_missing` tells whether anything is missing.
    pub open spec fn wf(&self) -> bool {
        self.has_missing == (self.missing@.len() > 0)
    }

    /// Splits `requirements` by whether the environment sets each variable, keeping
    /// their order.
    pub fn new(requirements: Vec<(String, String)>, env: &Environment) -> (p: Self)
        ensures
            p.wf(),
            pairs_view(p.fulfilled@) == pairs_view(requirements@).filter(is_met(env@)),
            pairs_view(p.missing@) == pairs_view(requirements@).filter(is_unmet(env@)),
    {
        let mut fulfilled: Vec<(String, String)> = Vec::new();
        let mut missing: Vec<(String, String)> = Vec::new();
        let ghost reqs = pairs_view(requirements@);
        let mut i: usize = 0;
        while i < requirements.len()
            invariant
                i <= requirements.len(),
                reqs == pairs_view(requirements@),
                pairs_view(fulfilled@) == reqs.subrange(0, i as int).filter(is_met(env@)),
                pairs_view(missing@) == reqs.subrange(0, i as int).filter(is_unmet(env@)),
            decreases requirements.len() - i,
        {
            let r = &requirements[i];
            let item = (r.0.clone(), r.1.clone());
            let ghost iv = (item.0@, item.1@);
            assert(reqs[i as int] == iv);
            assert(reqs.subrange(0, i + 1) =~= reqs.subrange(0, i as int).push(iv));
            proof {
                reqs.subrange(0, i as int).lemma_filter_push(iv, is_met(env@));
                reqs.subrange(0, i as int).lemma_filter_push(iv, is_unmet(env@));
            }
            if has_env(env, r.0.as_str()) {
                fulfilled.push(item);
                assert(pairs_view(fulfilled@) =~= reqs.subrange(0, i as int).filter(is_met(env@)).push(iv));
            } else {
                missing.push(item);
                assert(pairs_view(missing@) =~= reqs.subrange(0, i as int).filter(is_unmet(env@)).push(iv));
            }
            i = i + 1;
        }
        assert(reqs.subrange(0, requirements.len() as int) =~= reqs);
        let has_missing = missing.len() > 0;
        ProviderRequirements { fulfilled, missing, has_missing }
    }

    /// The names of the missing variables, separated by `, `.
    pub fn get_missing_list_str(&self) -> (s: String)
        ensures
            s@ == join(names(pairs_view(self.missing@)), ", "@),
    {
        let mut list: Vec<String> = Vec::new();
        let mut i: usize = 0;
        while i < self.missing.len()
            invariant
                i <= self.missing.len(),
                list@.len() == i,
                views(list@) == names(pairs_view(self.missing@)).subrange(0, i as int),
            decreases self.missing.len() - i,
        {
            let name = self.missing[i].0.clone();
            list.push(name);
            assert(pairs_view(self.missing@)[i as int] == (self.missing@[i as int].0@, self.missing@[i as int].1@));
            assert(names(pairs_view(self.missing@))[i as int] == self.missing@[i as int].0@);
            assert(views(list@)[i as int] == name@);
            assert(views(list@) =~= names(pairs_view(self.missing@)).subrange(0, i + 1));
            i = i + 1;
        }
        assert(names(pairs_view(self.missing@)).subrange(0, self.missing.len() as int)
            =~= names(pairs_view(self.missing@)));
        join_strings(&list, ", ")
    }
}

/// The fulfilled and the missing requirements together are all of them: each
/// requirement is in exactly one of the two lists, and something is missing exactly when
/// some requirement's variable is not set.
pub proof fn lemma_requirements_partition(reqs: Seq<(Seq<char>, Seq<char>)>, env: Seq<(Seq<char>, Seq<char>)>)
    ensures
        reqs.filter(is_met(env)).len() + reqs.filter(is_unmet(env)).len() == reqs.len(),
        reqs.filter(is_unmet(env)).len() > 0 <==> exists|i: int| 0 <= i < reqs.len()
            && !has_env_spec(env, (#[trigger] reqs[i]).0),
    decreases reqs.len(),
{
    if reqs.len() > 0 {
        let init = reqs.drop_last();
        lemma_requirements_partition(init, env);
        assert(init.push(reqs.last()) =~= reqs);
        init.lemma_filter_push(reqs.last(), is_met(env));
        init.lemma_filter_push(reqs.last(), is_unmet(env));
        if reqs.filter(is_unmet(env)).len() > 0 && !has_env_spec(env, reqs.last().0) == false {
            let i = choose|i: int| 0 <= i < init.len() && !has_env_spec(env, (#[trigger] init[i]).0);
            assert(reqs[i] == init[i]);
        }
        if exists|i: int| 0 <= i < reqs.len() && !has_env_spec(env, (#[trigger] reqs[i]).0) {
            let i = choose|i: int| 0 <= i < reqs.len() && !has_env_spec(env, (#[trigger] reqs[i]).0);
            if i < reqs.len() - 1 {
                assert(init[i] == reqs[i]);
            }
        }
    } else {
        assert(reqs.filter(is_met(env)) =~= reqs);
        assert(reqs.filter(is_unmet(env)) =~= reqs);
    }
}

} // verus!
