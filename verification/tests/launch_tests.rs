use sidecar_supervisor::env::Environment;
use sidecar_supervisor::launch::{sidecar_args, sidecar_env, sidecar_launch, Launcher};
use sidecar_supervisor::plugin::{PathProbe, Platform, PluginProbes};
use sidecar_supervisor::probe::probe_target;

fn pair(key: &str, value: &str) -> (String, String) {
    (key.to_string(), value.to_string())
}

fn no_probes() -> PluginProbes {
    PluginProbes { explicit: None, ancestors: None }
}

fn plugin_probes() -> PluginProbes {
    PluginProbes {
        explicit: Some(PathProbe {
            path: "p".to_string(),
            is_file: true,
            canonical: Some("/abs/index.js".to_string()),
        }),
        ancestors: None,
    }
}

#[test]
fn a_probe_goes_to_the_loopback_address() {
    let target = probe_target(4096);
    assert_eq!(target.host, (127, 0, 0, 1));
    assert_eq!(target.port, 4096);
    assert_eq!(probe_target(0).port, 0);
    assert_eq!(probe_target(65535).port, 65535);
}

#[test]
fn a_probe_keeps_the_low_sixteen_bits() {
    assert_eq!(probe_target(65536).port, 0);
    assert_eq!(probe_target(70000).port, 4464);
    assert_eq!(probe_target(u32::MAX).port, 65535);
}

#[test]
fn windows_arguments_serve_on_the_port() {
    assert_eq!(
        sidecar_args(Platform::Windows, "ignored", 5000),
        vec!["serve".to_string(), "--port=5000".to_string()]
    );
}

#[test]
fn unix_arguments_run_a_login_shell_command() {
    assert_eq!(
        sidecar_args(Platform::Unix, "/opt/app/opencode-cli", 5000),
        vec![
            "-il".to_string(),
            "-c".to_string(),
            "/opt/app/opencode-cli serve --port=5000".to_string()
        ]
    );
}

#[test]
fn the_environment_without_configuration() {
    assert_eq!(
        sidecar_env(4097, "/state", None),
        vec![
            pair("OPENCODE_EXPERIMENTAL_ICON_DISCOVERY", "true"),
            pair("OPENCODE_CLIENT", "desktop"),
            pair("OPENCODE_SKILLS_PORT", "4097"),
            pair("OPENCODE_SKILLS_API_PORT", "4097"),
            pair("XDG_STATE_HOME", "/state"),
        ]
    );
}

#[test]
fn the_environment_with_configuration() {
    assert_eq!(
        sidecar_env(40000, "C:\\state", Some("{\"plugin\":[]}".to_string())),
        vec![
            pair("OPENCODE_EXPERIMENTAL_ICON_DISCOVERY", "true"),
            pair("OPENCODE_CLIENT", "desktop"),
            pair("OPENCODE_SKILLS_PORT", "40000"),
            pair("OPENCODE_SKILLS_API_PORT", "40000"),
            pair("XDG_STATE_HOME", "C:\\state"),
            pair("OPENCODE_CONFIG_CONTENT", "{\"plugin\":[]}"),
        ]
    );
}

#[test]
fn a_windows_launch_runs_the_bundled_binary() {
    let mut env = Environment::new();
    env.set("SHELL".to_string(), "/bin/zsh".to_string());
    let spec =
        sidecar_launch(Platform::Windows, &env, &no_probes(), "unused", "C:\\state", 5000, 4097);
    assert!(matches!(&spec.launcher, Launcher::Bundled(name) if name == "opencode-cli"));
    assert_eq!(spec.args, vec!["serve".to_string(), "--port=5000".to_string()]);
    assert_eq!(spec.env.len(), 5);
    assert_eq!(spec.env[4], pair("XDG_STATE_HOME", "C:\\state"));
}

#[test]
fn a_unix_launch_runs_the_users_shell() {
    let mut env = Environment::new();
    env.set("SHELL".to_string(), "/bin/zsh".to_string());
    let spec = sidecar_launch(
        Platform::Unix,
        &env,
        &plugin_probes(),
        "/opt/app/opencode-cli",
        "/state",
        5000,
        4098,
    );
    assert!(matches!(&spec.launcher, Launcher::Shell(path) if path == "/bin/zsh"));
    assert_eq!(
        spec.args,
        vec![
            "-il".to_string(),
            "-c".to_string(),
            "/opt/app/opencode-cli serve --port=5000".to_string()
        ]
    );
    assert_eq!(
        spec.env,
        vec![
            pair("OPENCODE_EXPERIMENTAL_ICON_DISCOVERY", "true"),
            pair("OPENCODE_CLIENT", "desktop"),
            pair("OPENCODE_SKILLS_PORT", "4098"),
            pair("OPENCODE_SKILLS_API_PORT", "4098"),
            pair("XDG_STATE_HOME", "/state"),
            pair("OPENCODE_CONFIG_CONTENT", "{\"plugin\":[\"file:///abs/index.js\"]}"),
        ]
    );
}

#[test]
fn a_unix_launch_without_shell_uses_sh() {
    let spec = sidecar_launch(
        Platform::Unix,
        &Environment::new(),
        &no_probes(),
        "/opt/app/opencode-cli",
        "/state",
        1,
        2,
    );
    assert!(matches!(&spec.launcher, Launcher::Shell(path) if path == "/bin/sh"));
    assert_eq!(spec.env.len(), 5);
}

#[test]
fn given_content_is_not_injected_again() {
    let mut env = Environment::new();
    env.set("OPENCODE_CONFIG_CONTENT".to_string(), "{}".to_string());
    let spec = sidecar_launch(Platform::Unix, &env, &plugin_probes(), "/x", "/state", 1, 2);
    assert_eq!(spec.env.len(), 5);
    assert!(spec.env.iter().all(|(key, _)| key != "OPENCODE_CONFIG_CONTENT"));
}
