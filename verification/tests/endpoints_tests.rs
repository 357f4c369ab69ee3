use sidecar_supervisor::endpoints::{
    initialization_script, json_or_null, local_service_url, render_initialization_script,
    resolve_endpoints, startup_payload, ResolvedEndpoints, StartupPayload,
};
use sidecar_supervisor::env::Environment;

const INDENT: &str = "                          ";
const LAST_INDENT: &str = "                        ";

fn expected_script(fields: [&str; 5]) -> String {
    let mut text = String::from("\n");
    text.push_str(&format!("{}window.__OPENCODE__ ??= {{}};\n", INDENT));
    text.push_str(&format!("{}window.__OPENCODE__.updaterEnabled = {};\n", INDENT, fields[0]));
    text.push_str(&format!("{}window.__OPENCODE__.port = {};\n", INDENT, fields[1]));
    text.push_str(&format!("{}window.__OPENCODE__.skillsPort = {};\n", INDENT, fields[2]));
    text.push_str(&format!("{}window.__OPENCODE__.baseUrl = {};\n", INDENT, fields[3]));
    text.push_str(&format!("{}window.__OPENCODE__.skillsBase = {};\n", INDENT, fields[4]));
    text.push_str(LAST_INDENT);
    text
}

fn environment(pairs: &[(&str, &str)]) -> Environment {
    let mut env = Environment::new();
    for (key, value) in pairs {
        env.set(key.to_string(), value.to_string());
    }
    env
}

#[test]
fn a_local_url_names_the_loopback_address() {
    assert_eq!(local_service_url(4096), "http://127.0.0.1:4096");
    assert_eq!(local_service_url(0), "http://127.0.0.1:0");
    assert_eq!(local_service_url(70000), "http://127.0.0.1:70000");
}

#[test]
fn endpoints_follow_the_ports() {
    let e = resolve_endpoints(None, None, Some(5000), 4097);
    assert_eq!(e.base_url, Some("http://127.0.0.1:5000".to_string()));
    assert_eq!(e.skills_base_url, Some("http://127.0.0.1:4097".to_string()));
}

#[test]
fn given_base_urls_are_kept() {
    let e = resolve_endpoints(
        Some("https://a.example".to_string()),
        Some("https://b.example".to_string()),
        Some(5000),
        4097,
    );
    assert_eq!(e.base_url, Some("https://a.example".to_string()));
    assert_eq!(e.skills_base_url, Some("https://b.example".to_string()));
}

#[test]
fn without_port_and_base_url_there_is_no_primary_endpoint() {
    let e = resolve_endpoints(None, None, None, 4097);
    assert_eq!(e.base_url, None);
    assert_eq!(e.skills_base_url, Some("http://127.0.0.1:4097".to_string()));
}

#[test]
fn each_override_stands_alone() {
    let e = resolve_endpoints(Some("https://a.example".to_string()), None, None, 6000);
    assert_eq!(e.base_url, Some("https://a.example".to_string()));
    assert_eq!(e.skills_base_url, Some("http://127.0.0.1:6000".to_string()));
    let e = resolve_endpoints(None, Some("https://b.example".to_string()), Some(1), 6000);
    assert_eq!(e.base_url, Some("http://127.0.0.1:1".to_string()));
    assert_eq!(e.skills_base_url, Some("https://b.example".to_string()));
}

#[test]
fn json_or_null_fills_the_gap() {
    assert_eq!(json_or_null(Some("12".to_string())), "12");
    assert_eq!(json_or_null(None), "null");
}

#[test]
fn the_rendered_script_sets_five_fields() {
    let script = render_initialization_script(true, "1", "2", "\"a\"", "\"b\"");
    assert_eq!(script, expected_script(["true", "1", "2", "\"a\"", "\"b\""]));
    let script = render_initialization_script(false, "null", "4097", "null", "x");
    assert_eq!(script, expected_script(["false", "null", "4097", "null", "x"]));
}

#[test]
fn the_rendered_script_is_exact() {
    assert_eq!(
        render_initialization_script(false, "A", "B", "C", "D"),
        "\n                          window.__OPENCODE__ ??= {};\n                          window.__OPENCODE__.updaterEnabled = false;\n                          window.__OPENCODE__.port = A;\n                          window.__OPENCODE__.skillsPort = B;\n                          window.__OPENCODE__.baseUrl = C;\n                          window.__OPENCODE__.skillsBase = D;\n                        "
    );
}

#[test]
fn the_script_of_a_local_launch() {
    let payload = StartupPayload {
        updater_enabled: false,
        port: Some(5000),
        skills_port: 4097,
        endpoints: resolve_endpoints(None, None, Some(5000), 4097),
    };
    assert_eq!(
        initialization_script(&payload),
        expected_script([
            "false",
            "5000",
            "4097",
            "\"http://127.0.0.1:5000\"",
            "\"http://127.0.0.1:4097\""
        ])
    );
}

#[test]
fn the_script_of_an_external_service() {
    let payload = StartupPayload {
        updater_enabled: true,
        port: None,
        skills_port: 4097,
        endpoints: ResolvedEndpoints { base_url: None, skills_base_url: None },
    };
    assert_eq!(
        initialization_script(&payload),
        expected_script(["true", "null", "4097", "null", "null"])
    );
}

#[test]
fn the_script_escapes_what_json_escapes() {
    let payload = StartupPayload {
        updater_enabled: true,
        port: None,
        skills_port: 1,
        endpoints: ResolvedEndpoints {
            base_url: Some("https://a.example/\"q\"\\\n".to_string()),
            skills_base_url: Some("https://é.example/\u{1}".to_string()),
        },
    };
    assert_eq!(
        initialization_script(&payload),
        expected_script([
            "true",
            "null",
            "1",
            "\"https://a.example/\\\"q\\\"\\\\\\n\"",
            "\"https://é.example/\\u0001\""
        ])
    );
}

#[test]
fn the_payload_of_a_local_launch() {
    let none = Environment::new();
    let payload = startup_payload(&none, &none, Some(5000), 4097);
    assert!(!payload.updater_enabled);
    assert_eq!(payload.port, Some(5000));
    assert_eq!(payload.skills_port, 4097);
    assert_eq!(payload.endpoints.base_url, Some("http://127.0.0.1:5000".to_string()));
    assert_eq!(payload.endpoints.skills_base_url, Some("http://127.0.0.1:4097".to_string()));
}

#[test]
fn the_payload_takes_the_overrides_from_the_environment() {
    let build = environment(&[("TAURI_SIGNING_PRIVATE_KEY", "key")]);
    let env = environment(&[
        ("OPENCODE_DESKTOP_BASE_URL", " https://a.example "),
        ("OPENCODE_DESKTOP_SKILLS_URL", "https://b.example"),
    ]);
    let payload = startup_payload(&build, &env, None, 4097);
    assert!(payload.updater_enabled);
    assert_eq!(payload.port, None);
    assert_eq!(payload.endpoints.base_url, Some("https://a.example".to_string()));
    assert_eq!(payload.endpoints.skills_base_url, Some("https://b.example".to_string()));
}
