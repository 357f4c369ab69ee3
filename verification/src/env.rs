//! The variables that configure a launch, and how they are read.
//!
//! An `Environment` is a snapshot of named text values. Two of them
//! matter: the one fixed when the application was built and the one of
//! the running process. The functions here say which value wins.
use vstd::prelude::*;
use vstd::string::*;

use crate::supervisor::LaunchPlan;
use crate::text::{parse_u32, parse_u32_spec, str_equal, str_of, text_of, trim, trimmed};

verus! {

/// The views of the entries of an environment, in the order of insertion.
pub open spec fn entry_views(entries: Seq<(String, String)>) -> Seq<(Seq<char>, Seq<char>)> {
    entries.map_values(|e: (String, String)| (e.0@, e.1@))
}

/// The bindings that a list of entries stands for: of two entries with
/// one name, the later one counts.
pub open spec fn bindings(entries: Seq<(Seq<char>, Seq<char>)>) -> Map<Seq<char>, Seq<char>>
    decreases entries.len(),
{
    if entries.len() == 0 {
        Map::empty()
    } else {
        bindings(entries.drop_last()).insert(entries.last().0, entries.last().1)
    }
}

/// The value bound to `key`, if there is one.
pub open spec fn lookup(env: Map<Seq<char>, Seq<char>>, key: Seq<char>) -> Option<Seq<char>> {
    if env.contains_key(key) {
        Some(env[key])
    } else {
        None
    }
}

/// A value as it is used: trimmed, and absent when nothing is left.
pub open spec fn meaningful(value: Option<Seq<char>>) -> Option<Seq<char>> {
    match value {
        Some(text) => if trimmed(text).len() == 0 {
            None
        } else {
            Some(trimmed(text))
        },
        None => None,
    }
}

/// The number that a value denotes, if it denotes one.
pub open spec fn number_of(value: Option<Seq<char>>) -> Option<u32> {
    match value {
        Some(text) => parse_u32_spec(text),
        None => None,
    }
}

/// The first of two optional values that is present.
pub open spec fn or_else<T>(first: Option<T>, second: Option<T>) -> Option<T> {
    match first {
        Some(_) => first,
        None => second,
    }
}

/// The meaningful value of the variable `key`.
pub open spec fn env_string_spec(env: Map<Seq<char>, Seq<char>>, key: Seq<char>) -> Option<
    Seq<char>,
> {
    meaningful(lookup(env, key))
}

/// The port that the variable `key` gives.
pub open spec fn env_port_spec(env: Map<Seq<char>, Seq<char>>, key: Seq<char>) -> Option<u32> {
    number_of(env_string_spec(env, key))
}

/// The port that a build-time variable gives. Such a value is read as it
/// stands, without trimming.
pub open spec fn fixed_port_spec(build: Map<Seq<char>, Seq<char>>, key: Seq<char>) -> Option<
    u32,
> {
    number_of(lookup(build, key))
}

/// The primary port that is configured: the one fixed at build time,
/// else the one given at run time.
pub open spec fn sidecar_port_spec(
    build: Map<Seq<char>, Seq<char>>,
    env: Map<Seq<char>, Seq<char>>,
) -> Option<u32> {
    or_else(fixed_port_spec(build, "OPENCODE_PORT"@), env_port_spec(env, "OPENCODE_PORT"@))
}

/// The skills port that is configured. Each of its two names is looked
/// up at build time first, then at run time.
pub open spec fn skills_port_override_spec(
    build: Map<Seq<char>, Seq<char>>,
    env: Map<Seq<char>, Seq<char>>,
) -> Option<u32> {
    or_else(
        fixed_port_spec(build, "OPENCODE_SKILLS_PORT"@),
        or_else(
            fixed_port_spec(build, "OPENCODE_SKILLS_API_PORT"@),
            or_else(
                env_port_spec(env, "OPENCODE_SKILLS_PORT"@),
                env_port_spec(env, "OPENCODE_SKILLS_API_PORT"@),
            ),
        ),
    )
}

/// The plan that the two environments make.
pub open spec fn launch_plan_spec(
    build: Map<Seq<char>, Seq<char>>,
    env: Map<Seq<char>, Seq<char>>,
) -> LaunchPlan {
    let external = env_string_spec(env, "OPENCODE_DESKTOP_BASE_URL"@) is Some;
    LaunchPlan {
        external_base: external,
        configured_port: if external {
            None
        } else {
            sidecar_port_spec(build, env)
        },
        skills_port_override: skills_port_override_spec(build, env),
    }
}

/// Named text values.
#[derive(Debug)]
pub struct Environment {
    entries: Vec<(String, String)>,
}

impl View for Environment {
    type V = Map<Seq<char>, Seq<char>>;

    closed spec fn view(&self) -> Map<Seq<char>, Seq<char>> {
        bindings(entry_views(self.entries@))
    }
}

impl Environment {
    /// An environment without variables.
    pub fn new() -> (r: Environment)
        ensures
            r@ == Map::<Seq<char>, Seq<char>>::empty(),
    {
        let r = Environment { entries: Vec::new() };
        assert(entry_views(r.entries@) =~= Seq::empty());
        r
    }

    /// Binds `key` to `value`; an earlier binding of `key` is replaced.
    pub fn set(&mut self, key: String, value: String)
        ensures
            final(self)@ == old(self)@.insert(key@, value@),
    {
        let ghost k = key@;
        let ghost v = value@;
        self.entries.push((key, value));
        assert(entry_views(self.entries@).drop_last() =~= entry_views(old(self).entries@));
        assert(entry_views(self.entries@).last() == (k, v));
    }

    /// The value bound to `key`, as it stands.
    pub fn get(&self, key: &str) -> (r: Option<&str>)
        ensures
            str_of(r) == lookup(self@, key@),
    {
        let mut i: usize = self.entries.len();
        let ghost all = entry_views(self.entries@);
        assert(all.take(i as int) == all);
        while i > 0
            invariant
                i <= self.entries@.len(),
                all == entry_views(self.entries@),
                lookup(self@, key@) == lookup(bindings(all.take(i as int)), key@),
            decreases i,
        {
            let ghost upto = all.take(i as int);
            assert(upto.drop_last() == all.take(i as int - 1));
            assert(upto.last() == all[i as int - 1]);
            i = i - 1;
            if str_equal(self.entries[i].0.as_str(), key) {
                return Some(self.entries[i].1.as_str());
            }
        }
        assert(all.take(0).len() == 0);
        None
    }

    /// Whether `key` is bound.
    pub fn contains(&self, key: &str) -> (r: bool)
        ensures
            r == self@.contains_key(key@),
    {
        self.get(key).is_some()
    }
}

/// The meaningful form of a value: trimmed, and absent when empty.
pub fn meaningful_value(value: Option<&str>) -> (r: Option<String>)
    ensures
        text_of(r) == meaningful(str_of(value)),
{
    match value {
        Some(text) => {
            let inner = trim(text);
            if inner.unicode_len() == 0 {
                None
            } else {
                Some(String::from_str(inner))
            }
        },
        None => None,
    }
}

/// The value of a text variable: trimmed, and absent when the variable is
/// unset or holds nothing but white space.
pub fn env_string(env: &Environment, key: &str) -> (r: Option<String>)
    ensures
        text_of(r) == env_string_spec(env@, key@),
{
    meaningful_value(env.get(key))
}

/// The value of a port variable: the number that its meaningful text
/// denotes, absent when the variable is unset or holds no such number.
pub fn env_port(env: &Environment, key: &str) -> (r: Option<u32>)
    ensures
        r == env_port_spec(env@, key@),
{
    match env_string(env, key) {
        Some(text) => parse_u32(text.as_str()),
        None => None,
    }
}

/// The port that a build-time variable gives.
pub fn fixed_port(build: &Environment, key: &str) -> (r: Option<u32>)
    ensures
        r == fixed_port_spec(build@, key@),
{
    match build.get(key) {
        Some(text) => parse_u32(text),
        None => None,
    }
}

/// The primary port that is configured: the value fixed at build time,
/// else the one given at run time. `None` says that an ephemeral port is
/// to be obtained from the system.
pub fn get_sidecar_port(build: &Environment, env: &Environment) -> (r: Option<u32>)
    ensures
        r == sidecar_port_spec(build@, env@),
{
    match fixed_port(build, "OPENCODE_PORT") {
        Some(port) => Some(port),
        None => env_port(env, "OPENCODE_PORT"),
    }
}

/// The skills port that is configured, under either of its two names,
/// the build-time values first.
pub fn get_skills_port_override(build: &Environment, env: &Environment) -> (r: Option<u32>)
    ensures
        r == skills_port_override_spec(build@, env@),
{
    if let Some(port) = fixed_port(build, "OPENCODE_SKILLS_PORT") {
        return Some(port);
    }
    if let Some(port) = fixed_port(build, "OPENCODE_SKILLS_API_PORT") {
        return Some(port);
    }
    if let Some(port) = env_port(env, "OPENCODE_SKILLS_PORT") {
        return Some(port);
    }
    env_port(env, "OPENCODE_SKILLS_API_PORT")
}

/// The base URL of a primary service that lives elsewhere.
pub fn get_opencode_base_override(env: &Environment) -> (r: Option<String>)
    ensures
        text_of(r) == env_string_spec(env@, "OPENCODE_DESKTOP_BASE_URL"@),
{
    env_string(env, "OPENCODE_DESKTOP_BASE_URL")
}

/// The base URL of a skills service that lives elsewhere.
pub fn get_skills_base_override(env: &Environment) -> (r: Option<String>)
    ensures
        text_of(r) == env_string_spec(env@, "OPENCODE_DESKTOP_SKILLS_URL"@),
{
    env_string(env, "OPENCODE_DESKTOP_SKILLS_URL")
}

/// The shell that launches the sidecar: the value of `SHELL` as it
/// stands, else `/bin/sh`.
pub fn get_user_shell(env: &Environment) -> (r: String)
    ensures
        r@ == match lookup(env@, "SHELL"@) {
            Some(shell) => shell,
            None => "/bin/sh"@,
        },
{
    match env.get("SHELL") {
        Some(shell) => String::from_str(shell),
        None => String::from_str("/bin/sh"),
    }
}

/// Whether the application checks for updates: it does when a signing
/// key was named at build time.
pub fn updater_enabled(build: &Environment) -> (r: bool)
    ensures
        r == build@.contains_key("TAURI_SIGNING_PRIVATE_KEY"@),
{
    build.contains("TAURI_SIGNING_PRIVATE_KEY")
}

/// The plan of a launch, read from the two environments. The primary
/// port is left open where a base URL is given.
pub fn launch_plan(build: &Environment, env: &Environment) -> (r: LaunchPlan)
    ensures
        r == launch_plan_spec(build@, env@),
{
    let external = get_opencode_base_override(env).is_some();
    let configured_port = if external {
        None
    } else {
        get_sidecar_port(build, env)
    };
    LaunchPlan {
        external_base: external,
        configured_port,
        skills_port_override: get_skills_port_override(build, env),
    }
}

} // verus!
