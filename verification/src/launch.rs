//! How the sidecar is launched: the program, its arguments and the
//! environment it is given.
use vstd::prelude::*;
use vstd::string::*;

use crate::env::{entry_views, get_user_shell, lookup, Environment};
use crate::plugin::{build_opencode_config_content, config_content_spec, Platform, PluginProbes};
use crate::text::{decimal_digits, decimal_string};

verus! {

/// The file name of the sidecar binary.
pub const SIDECAR_BINARY: &'static str = "opencode-cli";

/// The program that starts the sidecar.
#[derive(Debug)]
pub enum Launcher {
    /// The sidecar binary that is bundled with the application, by name.
    Bundled(String),
    /// The user's shell, by path; it runs the sidecar as a command line.
    Shell(String),
}

/// Everything that a spawn needs.
#[derive(Debug)]
pub struct LaunchSpec {
    pub launcher: Launcher,
    pub args: Vec<String>,
    pub env: Vec<(String, String)>,
}

/// A launcher as plain values.
pub enum LauncherFacts {
    Bundled(Seq<char>),
    Shell(Seq<char>),
}

/// A launch as plain values.
pub struct LaunchFacts {
    pub launcher: LauncherFacts,
    pub args: Seq<Seq<char>>,
    pub env: Seq<(Seq<char>, Seq<char>)>,
}

impl View for Launcher {
    type V = LauncherFacts;

    open spec fn view(&self) -> LauncherFacts {
        match *self {
            Launcher::Bundled(name) => LauncherFacts::Bundled(name@),
            Launcher::Shell(path) => LauncherFacts::Shell(path@),
        }
    }
}

impl View for LaunchSpec {
    type V = LaunchFacts;

    open spec fn view(&self) -> LaunchFacts {
        LaunchFacts {
            launcher: self.launcher@,
            args: self.args@.map_values(|a: String| a@),
            env: entry_views(self.env@),
        }
    }
}

/// The shell that is used where the environment names none.
pub open spec fn shell_spec(env: Map<Seq<char>, Seq<char>>) -> Seq<char> {
    match lookup(env, "SHELL"@) {
        Some(shell) => shell,
        None => "/bin/sh"@,
    }
}

/// The program of a launch: on Windows the bundled binary, elsewhere the
/// user's shell.
pub open spec fn launcher_spec(platform: Platform, shell: Seq<char>) -> LauncherFacts {
    match platform {
        Platform::Windows => LauncherFacts::Bundled(SIDECAR_BINARY@),
        Platform::Unix => LauncherFacts::Shell(shell),
    }
}

/// The option that tells the sidecar its port.
pub open spec fn port_option(port: u32) -> Seq<char> {
    "--port="@ + decimal_digits(port as nat)
}

/// The arguments of a launch. On Windows the binary is told to serve on
/// the port; elsewhere a login shell is told to run that command line.
pub open spec fn args_spec(platform: Platform, sidecar_path: Seq<char>, port: u32) -> Seq<
    Seq<char>,
> {
    match platform {
        Platform::Windows => seq!["serve"@, port_option(port)],
        Platform::Unix => seq!["-il"@, "-c"@, sidecar_path + " serve "@ + port_option(port)],
    }
}

/// The variables that every launch sets.
pub open spec fn base_env_spec(skills_port: u32, state_dir: Seq<char>) -> Seq<
    (Seq<char>, Seq<char>),
> {
    seq![
        ("OPENCODE_EXPERIMENTAL_ICON_DISCOVERY"@, "true"@),
        ("OPENCODE_CLIENT"@, "desktop"@),
        ("OPENCODE_SKILLS_PORT"@, decimal_digits(skills_port as nat)),
        ("OPENCODE_SKILLS_API_PORT"@, decimal_digits(skills_port as nat)),
        ("XDG_STATE_HOME"@, state_dir),
    ]
}

/// The variables of a launch: the client marker, the skills port under
/// both of its names, the state directory and, where there is one, the
/// configuration to inject.
pub open spec fn env_spec(
    skills_port: u32,
    state_dir: Seq<char>,
    config: Option<Seq<char>>,
) -> Seq<(Seq<char>, Seq<char>)> {
    match config {
        Some(content) => base_env_spec(skills_port, state_dir).push(
            ("OPENCODE_CONFIG_CONTENT"@, content),
        ),
        None => base_env_spec(skills_port, state_dir),
    }
}

/// The launch of the sidecar on the two ports.
pub open spec fn launch_spec(
    platform: Platform,
    env: Map<Seq<char>, Seq<char>>,
    config: Option<Seq<char>>,
    sidecar_path: Seq<char>,
    state_dir: Seq<char>,
    port: u32,
    skills_port: u32,
) -> LaunchFacts {
    LaunchFacts {
        launcher: launcher_spec(platform, shell_spec(env)),
        args: args_spec(platform, sidecar_path, port),
        env: env_spec(skills_port, state_dir, config),
    }
}

/// The arguments for the launcher.
pub fn sidecar_args(platform: Platform, sidecar_path: &str, port: u32) -> (r: Vec<String>)
    ensures
        r@.map_values(|a: String| a@) == args_spec(platform, sidecar_path@, port),
{
    let mut option = String::from_str("--port=");
    option.append(decimal_string(port).as_str());
    let mut args: Vec<String> = Vec::new();
    match platform {
        Platform::Windows => {
            args.push(String::from_str("serve"));
            args.push(option);
        },
        Platform::Unix => {
            let mut line = String::from_str(sidecar_path);
            line.append(" serve ");
            line.append(option.as_str());
            args.push(String::from_str("-il"));
            args.push(String::from_str("-c"));
            args.push(line);
        },
    }
    assert(args@.map_values(|a: String| a@) =~= args_spec(platform, sidecar_path@, port));
    args
}

/// The environment for the child process.
pub fn sidecar_env(skills_port: u32, state_dir: &str, config: Option<String>) -> (r: Vec<
    (String, String),
>)
    ensures
        entry_views(r@) == env_spec(
            skills_port,
            state_dir@,
            match config {
                Some(content) => Some(content@),
                None => None,
            },
        ),
{
    let mut vars: Vec<(String, String)> = Vec::new();
    vars.push((String::from_str("OPENCODE_EXPERIMENTAL_ICON_DISCOVERY"), String::from_str("true")));
    vars.push((String::from_str("OPENCODE_CLIENT"), String::from_str("desktop")));
    vars.push((String::from_str("OPENCODE_SKILLS_PORT"), decimal_string(skills_port)));
    vars.push((String::from_str("OPENCODE_SKILLS_API_PORT"), decimal_string(skills_port)));
    vars.push((String::from_str("XDG_STATE_HOME"), String::from_str(state_dir)));
    assert(entry_views(vars@) =~= base_env_spec(skills_port, state_dir@));
    match config {
        Some(content) => {
            let ghost text = content@;
            vars.push((String::from_str("OPENCODE_CONFIG_CONTENT"), content));
            assert(entry_views(vars@) =~= base_env_spec(skills_port, state_dir@).push(
                ("OPENCODE_CONFIG_CONTENT"@, text),
            ));
        },
        None => {},
    }
    vars
}

/// Everything that the spawn of the sidecar needs: the launcher for the
/// platform, the arguments that make it serve on `port`, and the
/// environment with the skills port, the state directory and the
/// configuration that the plugin search yields.
pub fn sidecar_launch(
    platform: Platform,
    env: &Environment,
    probes: &PluginProbes,
    sidecar_path: &str,
    state_dir: &str,
    port: u32,
    skills_port: u32,
) -> (r: LaunchSpec)
    ensures
        r@ == launch_spec(
            platform,
            env@,
            config_content_spec(env@, probes@, platform),
            sidecar_path@,
            state_dir@,
            port,
            skills_port,
        ),
{
    let config = build_opencode_config_content(env, probes, platform);
    let launcher = match platform {
        Platform::Windows => Launcher::Bundled(String::from_str(SIDECAR_BINARY)),
        Platform::Unix => Launcher::Shell(get_user_shell(env)),
    };
    LaunchSpec {
        launcher,
        args: sidecar_args(platform, sidecar_path, port),
        env: sidecar_env(skills_port, state_dir, config),
    }
}

} // verus!
