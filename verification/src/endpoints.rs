//! What a finished launch hands to the user interface: the base URLs of
//! the two services, and the script that announces them.
use vstd::prelude::*;
use vstd::string::*;

use crate::env::{
    env_string_spec, get_opencode_base_override, get_skills_base_override, updater_enabled,
    Environment,
};
use crate::json::{json_text, port_document, port_json, text_document, text_json};
use crate::text::{decimal_digits, decimal_string, text_of};

verus! {

/// The base URLs of the two services.
#[derive(Debug)]
pub struct ResolvedEndpoints {
    pub base_url: Option<String>,
    pub skills_base_url: Option<String>,
}

/// The endpoints as plain values.
pub struct EndpointTexts {
    pub base_url: Option<Seq<char>>,
    pub skills_base_url: Option<Seq<char>>,
}

impl View for ResolvedEndpoints {
    type V = EndpointTexts;

    open spec fn view(&self) -> EndpointTexts {
        EndpointTexts {
            base_url: text_of(self.base_url),
            skills_base_url: text_of(self.skills_base_url),
        }
    }
}

/// What the user interface is told before its first paint.
#[derive(Debug)]
pub struct StartupPayload {
    pub updater_enabled: bool,
    pub port: Option<u32>,
    pub skills_port: u32,
    pub endpoints: ResolvedEndpoints,
}

/// The URL of a service on the loopback address.
pub open spec fn local_url(port: u32) -> Seq<char> {
    "http://127.0.0.1:"@ + decimal_digits(port as nat)
}

/// The endpoints of a launch: a base URL that was given is kept; else the
/// primary URL is the local one of the primary port, if there is such a
/// port, and the skills URL is the local one of the skills port.
pub open spec fn endpoints_spec(
    base_override: Option<Seq<char>>,
    skills_base_override: Option<Seq<char>>,
    port: Option<u32>,
    skills_port: u32,
) -> EndpointTexts {
    EndpointTexts {
        base_url: match base_override {
            Some(url) => Some(url),
            None => match port {
                Some(number) => Some(local_url(number)),
                None => None,
            },
        },
        skills_base_url: match skills_base_override {
            Some(url) => Some(url),
            None => Some(local_url(skills_port)),
        },
    }
}

/// A JSON text, or `null` where there is none.
pub open spec fn or_null(text: Option<Seq<char>>) -> Seq<char> {
    match text {
        Some(content) => content,
        None => "null"@,
    }
}

/// How a truth value reads in the script.
pub open spec fn bool_text(value: bool) -> Seq<char> {
    if value {
        "true"@
    } else {
        "false"@
    }
}

/// The script that sets the five fields of the startup object, each to
/// the JSON text given for it.
pub open spec fn script_text(
    updater_enabled: bool,
    port: Seq<char>,
    skills_port: Seq<char>,
    base_url: Seq<char>,
    skills_base_url: Seq<char>,
) -> Seq<char> {
    "\n                          window.__OPENCODE__ ??= {};\n                          window.__OPENCODE__.updaterEnabled = "@
        + bool_text(updater_enabled)
        + ";\n                          window.__OPENCODE__.port = "@ + port
        + ";\n                          window.__OPENCODE__.skillsPort = "@ + skills_port
        + ";\n                          window.__OPENCODE__.baseUrl = "@ + base_url
        + ";\n                          window.__OPENCODE__.skillsBase = "@ + skills_base_url
        + ";\n                        "@
}

/// The script of a payload: each field in the serializer's JSON text,
/// `null` standing in where the serializer gave none.
pub open spec fn payload_script(
    updater_enabled: bool,
    port: Option<u32>,
    skills_port: u32,
    endpoints: EndpointTexts,
) -> Seq<char> {
    script_text(
        updater_enabled,
        or_null(json_text(port_document(port))),
        or_null(json_text(port_document(Some(skills_port)))),
        or_null(json_text(text_document(endpoints.base_url))),
        or_null(json_text(text_document(endpoints.skills_base_url))),
    )
}

/// The URL of the service that listens on `port` of the loopback address.
pub fn local_service_url(port: u32) -> (r: String)
    ensures
        r@ == local_url(port),
{
    let mut url = String::from_str("http://127.0.0.1:");
    url.append(decimal_string(port).as_str());
    url
}

/// The endpoints of a launch, from the overrides and the resolved ports.
pub fn resolve_endpoints(
    base_override: Option<String>,
    skills_base_override: Option<String>,
    port: Option<u32>,
    skills_port: u32,
) -> (r: ResolvedEndpoints)
    ensures
        r@ == endpoints_spec(
            text_of(base_override),
            text_of(skills_base_override),
            port,
            skills_port,
        ),
{
    let base_url = match base_override {
        Some(url) => Some(url),
        None => match port {
            Some(number) => Some(local_service_url(number)),
            None => None,
        },
    };
    let skills_base_url = match skills_base_override {
        Some(url) => Some(url),
        None => Some(local_service_url(skills_port)),
    };
    ResolvedEndpoints { base_url, skills_base_url }
}

/// What the user interface is told of a launch that settled on the two
/// ports: whether updates are checked for, the ports, and the endpoints
/// that follow from the ports and from the base URLs that were given.
pub fn startup_payload(
    build: &Environment,
    env: &Environment,
    port: Option<u32>,
    skills_port: u32,
) -> (r: StartupPayload)
    ensures
        r.updater_enabled == build@.contains_key("TAURI_SIGNING_PRIVATE_KEY"@),
        r.port == port,
        r.skills_port == skills_port,
        r.endpoints@ == endpoints_spec(
            env_string_spec(env@, "OPENCODE_DESKTOP_BASE_URL"@),
            env_string_spec(env@, "OPENCODE_DESKTOP_SKILLS_URL"@),
            port,
            skills_port,
        ),
{
    StartupPayload {
        updater_enabled: updater_enabled(build),
        port,
        skills_port,
        endpoints: resolve_endpoints(
            get_opencode_base_override(env),
            get_skills_base_override(env),
            port,
            skills_port,
        ),
    }
}

/// The script for five JSON texts that are already written.
pub fn render_initialization_script(
    updater_enabled: bool,
    port_json: &str,
    skills_port_json: &str,
    base_url_json: &str,
    skills_base_url_json: &str,
) -> (r: String)
    ensures
        r@ == script_text(
            updater_enabled,
            port_json@,
            skills_port_json@,
            base_url_json@,
            skills_base_url_json@,
        ),
{
    let mut out = String::from_str(
        "\n                          window.__OPENCODE__ ??= {};\n                          window.__OPENCODE__.updaterEnabled = ",
    );
    if updater_enabled {
        out.append("true");
    } else {
        out.append("false");
    }
    out.append(";\n                          window.__OPENCODE__.port = ");
    out.append(port_json);
    out.append(";\n                          window.__OPENCODE__.skillsPort = ");
    out.append(skills_port_json);
    out.append(";\n                          window.__OPENCODE__.baseUrl = ");
    out.append(base_url_json);
    out.append(";\n                          window.__OPENCODE__.skillsBase = ");
    out.append(skills_base_url_json);
    out.append(";\n                        ");
    out
}

/// A JSON text as the script shows it: `null` where there is none.
pub fn json_or_null(text: Option<String>) -> (r: String)
    ensures
        r@ == or_null(text_of(text)),
{
    match text {
        Some(content) => content,
        None => String::from_str("null"),
    }
}

/// The script that announces `payload` to the user interface.
pub fn initialization_script(payload: &StartupPayload) -> (r: String)
    ensures
        r@ == payload_script(
            payload.updater_enabled,
            payload.port,
            payload.skills_port,
            payload.endpoints@,
        ),
{
    let port = json_or_null(port_json(payload.port));
    let skills_port = json_or_null(port_json(Some(payload.skills_port)));
    let base_url = json_or_null(
        text_json(
            match &payload.endpoints.base_url {
                Some(url) => Some(url.as_str()),
                None => None,
            },
        ),
    );
    let skills_base_url = json_or_null(
        text_json(
            match &payload.endpoints.skills_base_url {
                Some(url) => Some(url.as_str()),
                None => None,
            },
        ),
    );
    render_initialization_script(
        payload.updater_enabled,
        port.as_str(),
        skills_port.as_str(),
        base_url.as_str(),
        skills_base_url.as_str(),
    )
}

} // verus!
