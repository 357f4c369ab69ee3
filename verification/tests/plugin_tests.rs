use sidecar_supervisor::env::Environment;
use sidecar_supervisor::plugin::{
    build_opencode_config_content, built_plugin_components, config_content_given,
    find_orchestrator_plugin_path, path_to_file_url, plugin_path_override, search_ancestors,
    source_plugin_components, AncestorProbe, PathProbe, Platform, PluginChoice, PluginProbes,
    MAX_ANCESTOR_DEPTH,
};

fn probe(path: &str, is_file: bool) -> PathProbe {
    PathProbe {
        path: path.to_string(),
        is_file,
        canonical: if is_file { Some(format!("/abs/{}", path)) } else { None },
    }
}

fn level(depth: usize, built: bool, source: bool) -> AncestorProbe {
    AncestorProbe {
        built: probe(&format!("d{}/orchestra/dist/index.js", depth), built),
        source: probe(&format!("d{}/orchestra/src/index.ts", depth), source),
    }
}

fn levels(flags: &[(bool, bool)]) -> Vec<AncestorProbe> {
    flags.iter().enumerate().map(|(depth, (b, s))| level(depth, *b, *s)).collect()
}

fn environment(pairs: &[(&str, &str)]) -> Environment {
    let mut env = Environment::new();
    for (key, value) in pairs {
        env.set(key.to_string(), value.to_string());
    }
    env
}

fn found(probes: &PluginProbes) -> Option<String> {
    find_orchestrator_plugin_path(probes).map(|p| p.path.clone())
}

#[test]
fn six_directories_are_searched() {
    assert_eq!(MAX_ANCESTOR_DEPTH, 6);
}

#[test]
fn the_candidates_have_fixed_names() {
    assert_eq!(built_plugin_components(), vec!["orchestra", "dist", "index.js"]);
    assert_eq!(source_plugin_components(), vec!["orchestra", "src", "index.ts"]);
}

#[test]
fn the_explicit_path_is_read_from_the_environment() {
    let env = environment(&[("OPENCODE_DESKTOP_PLUGIN_PATH", " /p/index.js ")]);
    assert_eq!(plugin_path_override(&env), Some("/p/index.js".to_string()));
    assert_eq!(plugin_path_override(&Environment::new()), None);
    assert_eq!(plugin_path_override(&environment(&[("OPENCODE_DESKTOP_PLUGIN_PATH", " ")])), None);
}

#[test]
fn an_explicit_file_wins_over_the_ancestors() {
    let probes = PluginProbes {
        explicit: Some(probe("given.js", true)),
        ancestors: Some(levels(&[(true, true)])),
    };
    assert_eq!(found(&probes), Some("given.js".to_string()));
}

#[test]
fn a_missing_explicit_file_falls_through_to_the_ancestors() {
    let probes = PluginProbes {
        explicit: Some(probe("missing.js", false)),
        ancestors: Some(levels(&[(false, false), (false, true)])),
    };
    assert_eq!(found(&probes), Some("d1/orchestra/src/index.ts".to_string()));
    let without = PluginProbes {
        explicit: None,
        ancestors: Some(levels(&[(false, false), (false, true)])),
    };
    assert_eq!(found(&without), found(&probes));
}

#[test]
fn a_missing_explicit_file_and_no_candidate_find_nothing() {
    let probes = PluginProbes {
        explicit: Some(probe("missing.js", false)),
        ancestors: Some(levels(&[(false, false), (false, false)])),
    };
    assert_eq!(found(&probes), None);
}

#[test]
fn the_nearest_directory_wins() {
    let list = levels(&[(false, false), (false, true), (true, true)]);
    assert_eq!(search_ancestors(&list), Some(PluginChoice::Source { depth: 1 }));
}

#[test]
fn the_built_plugin_is_preferred_to_its_source() {
    let list = levels(&[(true, true)]);
    assert_eq!(search_ancestors(&list), Some(PluginChoice::Built { depth: 0 }));
    let probes = PluginProbes { explicit: None, ancestors: Some(list) };
    assert_eq!(found(&probes), Some("d0/orchestra/dist/index.js".to_string()));
}

#[test]
fn the_sixth_directory_is_still_searched() {
    let mut flags = vec![(false, false); 5];
    flags.push((true, false));
    assert_eq!(search_ancestors(&levels(&flags)), Some(PluginChoice::Built { depth: 5 }));
}

#[test]
fn the_seventh_directory_is_not_searched() {
    let mut flags = vec![(false, false); 6];
    flags.push((true, true));
    assert_eq!(search_ancestors(&levels(&flags)), None);
    let probes = PluginProbes { explicit: None, ancestors: Some(levels(&flags)) };
    assert_eq!(found(&probes), None);
}

#[test]
fn no_directories_give_no_plugin() {
    assert_eq!(search_ancestors(&Vec::new()), None);
}

#[test]
fn an_unknown_working_directory_gives_no_plugin() {
    let probes = PluginProbes { explicit: None, ancestors: None };
    assert_eq!(found(&probes), None);
    let missing = PluginProbes { explicit: Some(probe("missing.js", false)), ancestors: None };
    assert_eq!(found(&missing), None);
    let given = PluginProbes { explicit: Some(probe("given.js", true)), ancestors: None };
    assert_eq!(found(&given), Some("given.js".to_string()));
}

#[test]
fn a_unix_path_gets_two_slashes() {
    assert_eq!(
        path_to_file_url(Some("/home/me/orchestra/dist/index.js"), Platform::Unix),
        Some("file:///home/me/orchestra/dist/index.js".to_string())
    );
    assert_eq!(
        path_to_file_url(Some("/with\\backslash"), Platform::Unix),
        Some("file:///with\\backslash".to_string())
    );
}

#[test]
fn a_windows_path_gets_three_slashes_and_no_backslash() {
    assert_eq!(
        path_to_file_url(Some("C:\\Users\\me\\index.js"), Platform::Windows),
        Some("file:///C:/Users/me/index.js".to_string())
    );
    assert_eq!(
        path_to_file_url(Some("\\\\?\\C:\\a b\\index.js"), Platform::Windows),
        Some("file://///?/C:/a b/index.js".to_string())
    );
}

#[test]
fn a_path_without_absolute_form_has_no_url() {
    assert_eq!(path_to_file_url(None, Platform::Unix), None);
    assert_eq!(path_to_file_url(None, Platform::Windows), None);
}

#[test]
fn given_content_is_recognised() {
    assert!(config_content_given(&environment(&[("OPENCODE_CONFIG_CONTENT", "{}")])));
    assert!(!config_content_given(&environment(&[("OPENCODE_CONFIG_CONTENT", "  ")])));
    assert!(!config_content_given(&Environment::new()));
}

#[test]
fn the_content_names_the_plugin_list() {
    let probes = PluginProbes { explicit: None, ancestors: Some(levels(&[(true, false)])) };
    assert_eq!(
        build_opencode_config_content(&Environment::new(), &probes, Platform::Unix),
        Some("{\"plugin\":[\"file:///abs/d0/orchestra/dist/index.js\"]}".to_string())
    );
}

#[test]
fn the_content_is_valid_json_for_awkward_paths() {
    let probes = PluginProbes {
        explicit: Some(PathProbe {
            path: "p".to_string(),
            is_file: true,
            canonical: Some("/a \"b\"/c\td/é".to_string()),
        }),
        ancestors: None,
    };
    let content =
        build_opencode_config_content(&Environment::new(), &probes, Platform::Unix).unwrap();
    assert_eq!(content, "{\"plugin\":[\"file:///a \\\"b\\\"/c\\td/é\"]}");
    let parsed: serde_json::Value = serde_json::from_str(&content).unwrap();
    assert_eq!(parsed["plugin"][0], "file:///a \"b\"/c\td/é");
    assert_eq!(parsed["plugin"].as_array().unwrap().len(), 1);
    assert_eq!(parsed.as_object().unwrap().len(), 1);
}

#[test]
fn the_content_on_windows_uses_forward_slashes() {
    let probes = PluginProbes {
        explicit: Some(PathProbe {
            path: "p".to_string(),
            is_file: true,
            canonical: Some("C:\\work\\orchestra\\dist\\index.js".to_string()),
        }),
        ancestors: None,
    };
    assert_eq!(
        build_opencode_config_content(&Environment::new(), &probes, Platform::Windows),
        Some("{\"plugin\":[\"file:///C:/work/orchestra/dist/index.js\"]}".to_string())
    );
}

#[test]
fn given_content_suppresses_the_plugin_whatever_is_found() {
    let env = environment(&[("OPENCODE_CONFIG_CONTENT", "{\"x\":1}")]);
    for explicit in [None, Some(probe("given.js", true)), Some(probe("missing.js", false))] {
        for ancestors in [None, Some(levels(&[(true, true)])), Some(levels(&[(false, false)]))] {
            for platform in [Platform::Unix, Platform::Windows] {
                let probes = PluginProbes {
                    explicit: explicit.as_ref().map(|p| probe(&p.path, p.is_file)),
                    ancestors: ancestors.as_ref().map(|list| {
                        list.iter()
                            .enumerate()
                            .map(|(d, a)| level(d, a.built.is_file, a.source.is_file))
                            .collect()
                    }),
                };
                assert_eq!(build_opencode_config_content(&env, &probes, platform), None);
            }
        }
    }
}

#[test]
fn blank_given_content_does_not_suppress() {
    let env = environment(&[("OPENCODE_CONFIG_CONTENT", "   ")]);
    let probes = PluginProbes { explicit: Some(probe("given.js", true)), ancestors: None };
    assert_eq!(
        build_opencode_config_content(&env, &probes, Platform::Unix),
        Some("{\"plugin\":[\"file:///abs/given.js\"]}".to_string())
    );
}

#[test]
fn no_plugin_gives_no_content() {
    let probes = PluginProbes { explicit: None, ancestors: Some(levels(&[(false, false)])) };
    assert_eq!(build_opencode_config_content(&Environment::new(), &probes, Platform::Unix), None);
}

#[test]
fn a_plugin_without_absolute_path_gives_no_content() {
    let probes = PluginProbes {
        explicit: Some(PathProbe { path: "p".to_string(), is_file: true, canonical: None }),
        ancestors: Some(levels(&[(true, true)])),
    };
    assert_eq!(build_opencode_config_content(&Environment::new(), &probes, Platform::Unix), None);
}
