//! A snapshot of the process environment, and the lookups the bot makes in it.

use vstd::prelude::*;

verus! {

/// The view of a list of name/value pairs.
pub open spec fn pairs_view(v: Seq<(String, String)>) -> Seq<(Seq<char>, Seq<char>)> {
    v.map_values(|p: (String, String)| (p.0@, p.1@))
}

/// The environment variables of the process, in the order the process lists them.
pub struct Environment {
    pub vars: Vec<(String, String)>,
}

impl View for Environment {
    type V = Seq<(Seq<char>, Seq<char>)>;

    open spec fn view(&self) -> Seq<(Seq<char>, Seq<char>)> {
        pairs_view(self.vars@)
    }
}

/// A variable named `name` is set to a non-empty value.
pub open spec fn has_env_spec(env: Seq<(Seq<char>, Seq<char>)>, name: Seq<char>) -> bool {
    exists|i: int| 0 <= i < env.len() && (#[trigger] env[i]).0 == name && env[i].1.len() > 0
}

/// The value of the first variable named `name`, if any.
pub open spec fn lookup_env(env: Seq<(Seq<char>, Seq<char>)>, name: Seq<char>) -> Option<Seq<char>>
    decreases env.len(),
{
    if env.len() == 0 {
        None
    } else if env[0].0 == name {
        Some(env[0].1)
    } else {
        lookup_env(env.drop_first(), name)
    }
}

/// The error text for a variable that is not set.
pub open spec fn missing_message(name: Seq<char>) -> Seq<char> {
    "Missing "@ + name
}

/// What `env_var` gives: the variable's value, or the error naming it.
pub open spec fn env_var_spec(env: Seq<(Seq<char>, Seq<char>)>, name: Seq<char>) -> Result<Seq<char>, Seq<char>> {
    match lookup_env(env, name) {
        Some(v) => Ok(v),
        None => Err(missing_message(name)),
    }
}

/// The view of a string result.
pub open spec fn result_view(r: Result<String, String>) -> Result<Seq<char>, Seq<char>> {
    match r {
        Ok(v) => Ok(v@),
        Err(e) => Err(e@),
    }
}

/// Whether a variable named `name` is set to a non-empty value.
pub fn has_env(env: &Environment, name: &str) -> (r: bool)
    ensures
        r == has_env_spec(env@, name@),
{
    let key = String::from_str(name);
    let mut i: usize = 0;
    while i < env.vars.len()
        invariant
            i <= env.vars.len(),
            key@ == name@,
            forall|j: int| 0 <= j < i ==> !((#[trigger] env@[j]).0 == name@ && env@[j].1.len() > 0),
        decreases env.vars.len() - i,
    {
        let entry = &env.vars[i];
        assert(env@[i as int] == (entry.0@, entry.1@));
        if entry.0 == key && entry.1.as_str().unicode_len() > 0 {
            return true;
        }
        i = i + 1;
    }
    false
}

/// The value of the variable `name`, or the error `Missing <name>` when it is not set.
pub fn env_var(env: &Environment, name: &str) -> (r: Result<String, String>)
    ensures
        result_view(r) == env_var_spec(env@, name@),
{
    let key = String::from_str(name);
    let mut i: usize = 0;
    assert(env@.subrange(0, env@.len() as int) =~= env@);
    while i < env.vars.len()
        invariant
            i <= env.vars.len(),
            key@ == name@,
            lookup_env(env@, name@) == lookup_env(env@.subrange(i as int, env@.len() as int), name@),
        decreases env.vars.len() - i,
    {
        let entry = &env.vars[i];
        let ghost rest = env@.subrange(i as int, env@.len() as int);
        assert(rest[0] == (entry.0@, entry.1@));
        assert(rest.drop_first() =~= env@.subrange(i + 1, env@.len() as int));
        if entry.0 == key {
            return Ok(entry.1.clone());
        }
        i = i + 1;
    }
    let mut message = String::from_str("Missing ");
    message.append(name);
    Err(message)
}

/// The error text for a variable whose value does not parse, with the parser's error.
pub open spec fn invalid_message(name: Seq<char>, error: Seq<char>) -> Seq<char> {
    "Invalid "@ + name + ": "@ + error
}

/// The variable `name` parsed by `parse`, which gives the value or the text of its
/// error: `Missing <name>` when it is not set, `Invalid <name>: <error>` when its
/// value does not parse, else the parsed value. An empty value is handed to `parse`
/// like any other.
pub fn env_var_parse<T, F: FnOnce(String) -> Result<T, String>>(env: &Environment, name: &str, parse: F)
    -> (r: Result<T, String>)
    requires
        forall|s: String| parse.requires((s,)),
    ensures
        lookup_env(env@, name@) is None ==> (r matches Err(e) && e@ == missing_message(name@)),
        lookup_env(env@, name@) matches Some(v) ==> exists|s: String, p: Result<T, String>|
            #![trigger parse.ensures((s,), p)]
            {
                &&& s@ == v
                &&& parse.ensures((s,), p)
                &&& match p {
                    Ok(t) => r == Ok::<T, String>(t),
                    Err(m) => r matches Err(e) && e@ == invalid_message(name@, m@),
                }
            },
{
    match env_var(env, name) {
        Err(e) => Err(e),
        Ok(value) => {
            let p = parse(value);
            match p {
                Ok(t) => Ok(t),
                Err(m) => {
                    let mut e = String::from_str("Invalid ");
                    e.append(name);
                    e.append(": ");
                    e.append(m.as_str());
                    Err(e)
                },
            }
        },
    }
}

/// A variable that is set to a non-empty value can be read: `env_var` does not report
/// it missing.
pub proof fn lemma_set_variable_readable(env: Seq<(Seq<char>, Seq<char>)>, name: Seq<char>)
    requires
        has_env_spec(env, name),
    ensures
        lookup_env(env, name) is Some,
        env_var_spec(env, name) is Ok,
    decreases env.len(),
{
    let i = choose|i: int| 0 <= i < env.len() && (#[trigger] env[i]).0 == name && env[i].1.len() > 0;
    if env[0].0 != name {
        assert(env.drop_first()[i - 1] == env[i]);
        lemma_set_variable_readable(env.drop_first(), name);
    }
}

} // verus!
