//! The configuration that is injected into the sidecar: where the plugin
//! is looked for, how its path becomes a URL, and when nothing is
//! injected at all.
use vstd::prelude::*;
use vstd::string::*;

use crate::env::{env_string, env_string_spec, Environment};
use crate::json::{json_text, keyed_item_json, keyed_list};
use crate::text::{forward_slashes, str_of, text_of, with_forward_slashes};

verus! {

/// How many directories are searched: the working directory and the
/// ancestors next to it.
pub const MAX_ANCESTOR_DEPTH: usize = 6;

/// The family of the platform that the application runs on.
#[derive(Clone, Copy, Debug, PartialEq, Eq, Structural)]
pub enum Platform {
    Windows,
    Unix,
}

/// What was found out about one path.
#[derive(Debug)]
pub struct PathProbe {
    /// The path as it was probed.
    pub path: String,
    /// Whether a regular file is there.
    pub is_file: bool,
    /// The absolute form of the path, where it could be made out.
    pub canonical: Option<String>,
}

/// The two candidates of one directory.
#[derive(Debug)]
pub struct AncestorProbe {
    /// The built plugin in that directory.
    pub built: PathProbe,
    /// The plugin's source in that directory.
    pub source: PathProbe,
}

/// Everything that was found out about the places of the plugin.
#[derive(Debug)]
pub struct PluginProbes {
    /// The path that was given explicitly, if one was.
    pub explicit: Option<PathProbe>,
    /// The working directory and its ancestors, nearest first; absent
    /// where the working directory is unknown.
    pub ancestors: Option<Vec<AncestorProbe>>,
}

/// Which candidate the plugin was found as.
#[derive(Clone, Copy, Debug, PartialEq, Eq, Structural)]
pub enum PluginChoice {
    /// The path that was given explicitly.
    Explicit,
    /// The built plugin, this many directories up.
    Built { depth: usize },
    /// The plugin's source, this many directories up.
    Source { depth: usize },
}

/// A probe as plain values.
pub struct ProbeFacts {
    pub path: Seq<char>,
    pub is_file: bool,
    pub canonical: Option<Seq<char>>,
}

impl View for PathProbe {
    type V = ProbeFacts;

    open spec fn view(&self) -> ProbeFacts {
        ProbeFacts { path: self.path@, is_file: self.is_file, canonical: text_of(self.canonical) }
    }
}

/// The probes as plain values.
pub struct ProbesFacts {
    pub explicit: Option<ProbeFacts>,
    pub ancestors: Option<Seq<(ProbeFacts, ProbeFacts)>>,
}

impl View for PluginProbes {
    type V = ProbesFacts;

    open spec fn view(&self) -> ProbesFacts {
        ProbesFacts {
            explicit: match self.explicit {
                Some(probe) => Some(probe@),
                None => None,
            },
            ancestors: match self.ancestors {
                Some(list) => Some(list@.map_values(|a: AncestorProbe| (a.built@, a.source@))),
                None => None,
            },
        }
    }
}

/// How many of `count` directories are searched.
pub open spec fn searched(count: nat) -> nat {
    if count <= MAX_ANCESTOR_DEPTH {
        count
    } else {
        MAX_ANCESTOR_DEPTH as nat
    }
}

/// Whether none of the first `depth` directories holds a candidate.
pub open spec fn nothing_above(ancestors: Seq<(ProbeFacts, ProbeFacts)>, depth: int) -> bool {
    forall|i: int|
        0 <= i < depth ==> !(#[trigger] ancestors[i]).0.is_file && !ancestors[i].1.is_file
}

/// Whether `choice` is the candidate of the ancestor search: the nearest
/// searched directory that holds one, the built plugin before the source.
pub open spec fn is_ancestor_hit(
    ancestors: Seq<(ProbeFacts, ProbeFacts)>,
    choice: PluginChoice,
) -> bool {
    match choice {
        PluginChoice::Explicit => false,
        PluginChoice::Built { depth } => {
            &&& depth < searched(ancestors.len())
            &&& nothing_above(ancestors, depth as int)
            &&& ancestors[depth as int].0.is_file
        },
        PluginChoice::Source { depth } => {
            &&& depth < searched(ancestors.len())
            &&& nothing_above(ancestors, depth as int)
            &&& !ancestors[depth as int].0.is_file
            &&& ancestors[depth as int].1.is_file
        },
    }
}

/// The candidate that the ancestor search finds.
pub open spec fn ancestor_hit(ancestors: Option<Seq<(ProbeFacts, ProbeFacts)>>) -> Option<
    PluginChoice,
> {
    match ancestors {
        Some(list) => if nothing_above(list, searched(list.len()) as int) {
            None
        } else {
            Some(choose|choice: PluginChoice| is_ancestor_hit(list, choice))
        },
        None => None,
    }
}

/// The candidate that the whole search finds: the explicit path where a
/// file is there, else what the ancestor search finds.
pub open spec fn plugin_choice(probes: ProbesFacts) -> Option<PluginChoice> {
    match probes.explicit {
        Some(probe) => if probe.is_file {
            Some(PluginChoice::Explicit)
        } else {
            ancestor_hit(probes.ancestors)
        },
        None => ancestor_hit(probes.ancestors),
    }
}

/// The probe that a choice refers to.
pub open spec fn chosen_probe(probes: ProbesFacts, choice: PluginChoice) -> ProbeFacts {
    match choice {
        PluginChoice::Explicit => probes.explicit.unwrap(),
        PluginChoice::Built { depth } => probes.ancestors.unwrap()[depth as int].0,
        PluginChoice::Source { depth } => probes.ancestors.unwrap()[depth as int].1,
    }
}

/// The probe of the plugin that the search finds.
pub open spec fn found_plugin(probes: ProbesFacts) -> Option<ProbeFacts> {
    match plugin_choice(probes) {
        Some(choice) => Some(chosen_probe(probes, choice)),
        None => None,
    }
}

/// The file URL of an absolute path.
pub open spec fn file_url(path: Seq<char>, platform: Platform) -> Seq<char> {
    match platform {
        Platform::Windows => "file:///"@ + forward_slashes(path),
        Platform::Unix => "file://"@ + path,
    }
}

/// The file URL of a path that may not have an absolute form.
pub open spec fn file_url_of(canonical: Option<Seq<char>>, platform: Platform) -> Option<
    Seq<char>,
> {
    match canonical {
        Some(path) => Some(file_url(path, platform)),
        None => None,
    }
}

/// The configuration that is injected: none where the content is given
/// from outside, where no plugin is found, or where the plugin's path has
/// no absolute form; else the serializer's text of the plugin list.
pub open spec fn config_content_spec(
    env: Map<Seq<char>, Seq<char>>,
    probes: ProbesFacts,
    platform: Platform,
) -> Option<Seq<char>> {
    if env_string_spec(env, "OPENCODE_CONFIG_CONTENT"@) is Some {
        None
    } else {
        match found_plugin(probes) {
            Some(probe) => match probe.canonical {
                Some(path) => json_text(keyed_list("plugin"@, seq![file_url(path, platform)])),
                None => None,
            },
            None => None,
        }
    }
}

/// At most one candidate is the hit of an ancestor search.
pub proof fn lemma_ancestor_hit_unique(
    ancestors: Seq<(ProbeFacts, ProbeFacts)>,
    first: PluginChoice,
    second: PluginChoice,
)
    requires
        is_ancestor_hit(ancestors, first),
        is_ancestor_hit(ancestors, second),
    ensures
        first == second,
{
    let a = match first {
        PluginChoice::Built { depth } => depth,
        PluginChoice::Source { depth } => depth,
        PluginChoice::Explicit => 0,
    };
    let b = match second {
        PluginChoice::Built { depth } => depth,
        PluginChoice::Source { depth } => depth,
        PluginChoice::Explicit => 0,
    };
    if a < b {
        assert(!ancestors[a as int].0.is_file && !ancestors[a as int].1.is_file);
    } else if b < a {
        assert(!ancestors[b as int].0.is_file && !ancestors[b as int].1.is_file);
    }
}

/// Where some searched directory holds a candidate, the search has a hit.
pub proof fn lemma_ancestor_hit_exists(ancestors: Seq<(ProbeFacts, ProbeFacts)>, depth: int)
    requires
        0 <= depth <= searched(ancestors.len()),
        nothing_above(ancestors, depth),
        !nothing_above(ancestors, searched(ancestors.len()) as int),
    ensures
        exists|choice: PluginChoice| is_ancestor_hit(ancestors, choice),
        ancestor_hit(Some(ancestors)) is Some,
        is_ancestor_hit(ancestors, ancestor_hit(Some(ancestors)).unwrap()),
    decreases searched(ancestors.len()) - depth,
{
    if depth < searched(ancestors.len()) {
        if ancestors[depth].0.is_file {
            assert(is_ancestor_hit(ancestors, PluginChoice::Built { depth: depth as usize }));
        } else if ancestors[depth].1.is_file {
            assert(is_ancestor_hit(ancestors, PluginChoice::Source { depth: depth as usize }));
        } else {
            lemma_ancestor_hit_exists(ancestors, depth + 1);
        }
    }
}

/// An explicit path at which no file is found counts as if none had been
/// given: the search goes on among the ancestors.
pub proof fn lemma_missing_explicit_falls_through(probes: ProbesFacts)
    requires
        probes.explicit is Some,
        !probes.explicit.unwrap().is_file,
    ensures
        plugin_choice(probes) == ancestor_hit(probes.ancestors),
        plugin_choice(probes) == plugin_choice(
            ProbesFacts { explicit: None, ancestors: probes.ancestors },
        ),
        found_plugin(probes) == found_plugin(
            ProbesFacts { explicit: None, ancestors: probes.ancestors },
        ),
{
    if let Some(list) = probes.ancestors {
        if !nothing_above(list, searched(list.len()) as int) {
            lemma_ancestor_hit_exists(list, 0);
        }
    }
}

/// Content that is given from outside is never overridden: whatever the
/// probes say, nothing is injected.
pub proof fn lemma_given_content_suppresses(
    env: Map<Seq<char>, Seq<char>>,
    probes: ProbesFacts,
    platform: Platform,
)
    requires
        env_string_spec(env, "OPENCODE_CONFIG_CONTENT"@) is Some,
    ensures
        config_content_spec(env, probes, platform) is None,
{
}

/// The path that was given for the plugin, which is the one to probe as
/// the explicit candidate.
pub fn plugin_path_override(env: &Environment) -> (r: Option<String>)
    ensures
        text_of(r) == env_string_spec(env@, "OPENCODE_DESKTOP_PLUGIN_PATH"@),
{
    env_string(env, "OPENCODE_DESKTOP_PLUGIN_PATH")
}

/// Whether the configuration's content is given from outside.
pub fn config_content_given(env: &Environment) -> (r: bool)
    ensures
        r == (env_string_spec(env@, "OPENCODE_CONFIG_CONTENT"@) is Some),
{
    env_string(env, "OPENCODE_CONFIG_CONTENT").is_some()
}

/// The names that lead from a directory to the built plugin.
pub fn built_plugin_components() -> (r: Vec<&'static str>)
    ensures
        r@.len() == 3,
        r@[0]@ == "orchestra"@,
        r@[1]@ == "dist"@,
        r@[2]@ == "index.js"@,
{
    vec!["orchestra", "dist", "index.js"]
}

/// The names that lead from a directory to the plugin's source.
pub fn source_plugin_components() -> (r: Vec<&'static str>)
    ensures
        r@.len() == 3,
        r@[0]@ == "orchestra"@,
        r@[1]@ == "src"@,
        r@[2]@ == "index.ts"@,
{
    vec!["orchestra", "src", "index.ts"]
}

/// Searches the ancestors, nearest first and no further than
/// `MAX_ANCESTOR_DEPTH` directories, for the built plugin or its source.
pub fn search_ancestors(ancestors: &Vec<AncestorProbe>) -> (r: Option<PluginChoice>)
    ensures
        r == ancestor_hit(Some(ancestors@.map_values(|a: AncestorProbe| (a.built@, a.source@)))),
        r matches Some(choice) ==> is_ancestor_hit(
            ancestors@.map_values(|a: AncestorProbe| (a.built@, a.source@)),
            choice,
        ),
{
    let ghost list = ancestors@.map_values(|a: AncestorProbe| (a.built@, a.source@));
    let limit = if ancestors.len() <= MAX_ANCESTOR_DEPTH {
        ancestors.len()
    } else {
        MAX_ANCESTOR_DEPTH
    };
    let mut depth: usize = 0;
    while depth < limit
        invariant
            depth <= limit,
            limit == searched(ancestors@.len()),
            list == ancestors@.map_values(|a: AncestorProbe| (a.built@, a.source@)),
            nothing_above(list, depth as int),
        decreases limit - depth,
    {
        if ancestors[depth].built.is_file {
            let found = PluginChoice::Built { depth };
            proof {
                assert(list[depth as int].0.is_file);
                assert(is_ancestor_hit(list, found));
                let picked = choose|choice: PluginChoice| is_ancestor_hit(list, choice);
                lemma_ancestor_hit_unique(list, found, picked);
            }
            return Some(found);
        }
        if ancestors[depth].source.is_file {
            let found = PluginChoice::Source { depth };
            proof {
                assert(list[depth as int].1.is_file);
                assert(is_ancestor_hit(list, found));
                let picked = choose|choice: PluginChoice| is_ancestor_hit(list, choice);
                lemma_ancestor_hit_unique(list, found, picked);
            }
            return Some(found);
        }
        assert(!list[depth as int].0.is_file && !list[depth as int].1.is_file);
        depth = depth + 1;
    }
    None
}

/// Finds the plugin: the explicit path where a file is there, else the
/// nearest candidate among the ancestors. The result is the probe of the
/// plugin that was found.
pub fn find_orchestrator_plugin_path(probes: &PluginProbes) -> (r: Option<&PathProbe>)
    ensures
        match r {
            Some(probe) => Some(probe@),
            None => None,
        } == found_plugin(probes@),
{
    if let Some(probe) = &probes.explicit {
        if probe.is_file {
            return Some(probe);
        }
    }
    match &probes.ancestors {
        Some(list) => match search_ancestors(list) {
            Some(PluginChoice::Built { depth }) => Some(&list[depth].built),
            Some(PluginChoice::Source { depth }) => Some(&list[depth].source),
            Some(PluginChoice::Explicit) => None,
            None => None,
        },
        None => None,
    }
}

/// The file URL of a path in its absolute form; none where the path has
/// no such form. On Windows every backslash becomes a slash and the URL
/// begins with three slashes, elsewhere with two.
pub fn path_to_file_url(canonical: Option<&str>, platform: Platform) -> (r: Option<String>)
    ensures
        text_of(r) == file_url_of(str_of(canonical), platform),
{
    match canonical {
        Some(path) => {
            let url = match platform {
                Platform::Windows => {
                    let mut url = String::from_str("file:///");
                    url.append(with_forward_slashes(path).as_str());
                    url
                },
                Platform::Unix => {
                    let mut url = String::from_str("file://");
                    url.append(path);
                    url
                },
            };
            Some(url)
        },
        None => None,
    }
}

/// The configuration to inject into the sidecar's environment, if any.
pub fn build_opencode_config_content(
    env: &Environment,
    probes: &PluginProbes,
    platform: Platform,
) -> (r: Option<String>)
    ensures
        text_of(r) == config_content_spec(env@, probes@, platform),
        env_string_spec(env@, "OPENCODE_CONFIG_CONTENT"@) is Some ==> r is None,
{
    if config_content_given(env) {
        return None;
    }
    let plugin = match find_orchestrator_plugin_path(probes) {
        Some(probe) => probe,
        None => {
            return None;
        },
    };
    let canonical = match &plugin.canonical {
        Some(path) => Some(path.as_str()),
        None => None,
    };
    match path_to_file_url(canonical, platform) {
        Some(url) => keyed_item_json("plugin", url.as_str()),
        None => None,
    }
}

} // verus!
