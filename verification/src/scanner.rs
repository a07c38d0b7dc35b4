//! The manifest rules of service discovery: which files are project
//! manifests, which directories are never descended into, and which
//! runnable services one manifest's content offers.
//!
//! Walking the directory tree and reading files happen outside the
//! library; each manifest's text is handed in and the service entries are
//! decided here. The two manifest grammars themselves are read by their
//! own ecosystems' parsers behind trusted declarations; every rule applied
//! to what they return is verified.

use vstd::prelude::*;
use vstd::string::StringExecFns;
use crate::models::{ProjectType, Service, ServiceStatus, ServiceView};

verus! {

/// Declares `serde_json::Value`, the opaque parsed form of one JSON
/// manifest; it is only carried between the trusted accessors below.
#[verifier::external_type_specification]
#[verifier::external_body]
pub struct ExJsonValue(serde_json::Value);

/// Declares `toml::Value`, the opaque parsed form of one TOML manifest;
/// it is only carried between the trusted accessors below.
#[verifier::external_type_specification]
#[verifier::external_body]
pub struct ExTomlValue(toml::Value);

/// Relies on `serde_json::from_str::<serde_json::Value>`: `Some` exactly
/// when the text is well-formed JSON; the value is carried opaquely.
#[verifier::external_body]
fn json_parse(content: &str) -> (r: Option<serde_json::Value>) {
    match serde_json::from_str::<serde_json::Value>(content) {
        Ok(v) => Some(v),
        Err(_) => None,
    }
}

/// Relies on `serde_json::Value::get` with a string index: the value under
/// this key when `v` is an object that holds it, `None` otherwise.
#[verifier::external_body]
fn json_get<'a>(v: &'a serde_json::Value, key: &str) -> (r: Option<&'a serde_json::Value>) {
    v.get(key)
}

/// Relies on `serde_json::Value::as_str`: the text when `v` is a JSON
/// string, `None` otherwise.
#[verifier::external_body]
fn json_as_string(v: &serde_json::Value) -> (r: Option<String>) {
    match v.as_str() {
        Some(s) => Some(s.to_owned()),
        None => None,
    }
}

/// Relies on `toml::from_str::<toml::Value>`: `Some` exactly when the text
/// is a well-formed TOML document; the value is carried opaquely.
#[verifier::external_body]
fn toml_parse(content: &str) -> (r: Option<toml::Value>) {
    match toml::from_str::<toml::Value>(content) {
        Ok(v) => Some(v),
        Err(_) => None,
    }
}

/// Relies on `toml::Value::get` with a string index: the value under this
/// key when `v` is a table that holds it, `None` otherwise.
#[verifier::external_body]
fn toml_get<'a>(v: &'a toml::Value, key: &str) -> (r: Option<&'a toml::Value>) {
    v.get(key)
}

/// Relies on `toml::Value::as_str`: the text when `v` is a TOML string,
/// `None` otherwise.
#[verifier::external_body]
fn toml_as_string(v: &toml::Value) -> (r: Option<String>) {
    match v.as_str() {
        Some(s) => Some(s.to_owned()),
        None => None,
    }
}

/// Relies on `str`'s `PartialEq`: equality of the two texts.
#[verifier::external_body]
fn str_eq(a: &str, b: &str) -> (r: bool)
    ensures
        r == (a@ == b@),
{
    a == b
}

/// Directories the scan never descends into.
pub fn is_ignored_dir(name: &str) -> (r: bool)
    ensures
        r == (name@ == "node_modules"@ || name@ == "target"@),
{
    str_eq(name, "node_modules") || str_eq(name, "target")
}

/// Which ecosystem's manifest a file of this name is, if any.
pub fn manifest_kind(file_name: &str) -> (r: Option<ProjectType>)
    ensures
        file_name@ == "package.json"@ ==> r == Some(ProjectType::Node),
        file_name@ == "Cargo.toml"@ ==> r == Some(ProjectType::Rust),
        file_name@ != "package.json"@ && file_name@ != "Cargo.toml"@ ==> r is None,
{
    proof {
        reveal_strlit("package.json");
        reveal_strlit("Cargo.toml");
        assert("package.json"@.len() == 12);
        assert("Cargo.toml"@.len() == 10);
    }
    if str_eq(file_name, "package.json") {
        Some(ProjectType::Node)
    } else if str_eq(file_name, "Cargo.toml") {
        Some(ProjectType::Rust)
    } else {
        None
    }
}

/// The display name of the service entry for one script of a package.
pub open spec fn script_service_name(pkg: Seq<char>, script: Seq<char>) -> Seq<char> {
    pkg + ": "@ + script
}

/// The shell command that runs one script of a package.
pub open spec fn script_command(script: Seq<char>) -> Seq<char> {
    "npm run "@ + script
}

/// The service entry offered for one script of a Node package manifest.
pub open spec fn node_script_entry(pkg: Seq<char>, dir: Seq<char>, script: Seq<char>) -> ServiceView {
    ServiceView {
        name: script_service_name(pkg, script),
        path: dir,
        project_type: ProjectType::Node,
        command: script_command(script),
        status: ServiceStatus::Stopped,
        logs: Seq::<Seq<char>>::empty(),
    }
}

/// The service entries one Node package manifest offers: one per
/// interesting script it defines, in the fixed order dev, start, build.
pub open spec fn node_manifest_services(
    pkg: Seq<char>,
    dir: Seq<char>,
    has_dev: bool,
    has_start: bool,
    has_build: bool,
) -> Seq<ServiceView> {
    (if has_dev {
        seq![node_script_entry(pkg, dir, "dev"@)]
    } else {
        Seq::<ServiceView>::empty()
    }) + (if has_start {
        seq![node_script_entry(pkg, dir, "start"@)]
    } else {
        Seq::<ServiceView>::empty()
    }) + (if has_build {
        seq![node_script_entry(pkg, dir, "build"@)]
    } else {
        Seq::<ServiceView>::empty()
    })
}

/// The service entry for one Rust package manifest.
pub open spec fn rust_entry(pkg: Seq<char>, dir: Seq<char>) -> ServiceView {
    ServiceView {
        name: pkg + ": run"@,
        path: dir,
        project_type: ProjectType::Rust,
        command: "cargo run"@,
        status: ServiceStatus::Stopped,
        logs: Seq::<Seq<char>>::empty(),
    }
}

/// Build the service entry for one script of a Node package.
fn node_script_service(package_name: &String, dir: &String, script: &str) -> (s: Service)
    ensures
        s@ == node_script_entry(package_name@, dir@, script@),
{
    let mut name = package_name.clone();
    name.append(": ");
    name.append(script);
    let mut command = "npm run ".to_owned();
    command.append(script);
    Service::new(name, dir.clone(), ProjectType::Node, command)
}

/// The service entries for a Node package named `package_name` in `dir`,
/// given which of its interesting scripts exist.
pub fn node_services(
    package_name: &String,
    dir: &String,
    has_dev: bool,
    has_start: bool,
    has_build: bool,
) -> (services: Vec<Service>)
    ensures
        services.deep_view() == node_manifest_services(
            package_name@,
            dir@,
            has_dev,
            has_start,
            has_build,
        ),
{
    let mut services: Vec<Service> = Vec::new();
    if has_dev {
        services.push(node_script_service(package_name, dir, "dev"));
    }
    if has_start {
        services.push(node_script_service(package_name, dir, "start"));
    }
    if has_build {
        services.push(node_script_service(package_name, dir, "build"));
    }
    proof {
        assert(services.deep_view() =~= node_manifest_services(
            package_name@,
            dir@,
            has_dev,
            has_start,
            has_build,
        ));
    }
    services
}

/// Build the single service entry for a Rust package.
pub fn rust_service(package_name: &String, dir: &String) -> (s: Service)
    ensures
        s@ == rust_entry(package_name@, dir@),
{
    let mut name = package_name.clone();
    name.append(": run");
    Service::new(name, dir.clone(), ProjectType::Rust, "cargo run".to_owned())
}

/// The service entries one Node package manifest's text offers, for the
/// manifest found in directory `dir`.
///
/// A manifest that is not well-formed JSON, or defines no interesting
/// scripts, offers nothing. A missing or non-text package name falls back
/// to a placeholder, as the discovery rules document.
pub fn parse_package_json(content: &str, dir: &String) -> (services: Vec<Service>)
    ensures
        services.deep_view().len() <= 3,
        forall|i: int| 0 <= i < services.deep_view().len() ==> (#[trigger] services.deep_view()[i]).path
            == dir@ && services.deep_view()[i].project_type == ProjectType::Node
            && services.deep_view()[i].status == ServiceStatus::Stopped
            && services.deep_view()[i].logs == Seq::<Seq<char>>::empty(),
{
    let parsed = json_parse(content);
    match parsed {
        None => Vec::new(),
        Some(json) => {
            let package_name = match json_get(&json, "name") {
                Some(v) => match json_as_string(v) {
                    Some(s) => s,
                    None => "unknown-js".to_owned(),
                },
                None => "unknown-js".to_owned(),
            };
            match json_get(&json, "scripts") {
                None => Vec::new(),
                Some(scripts) => {
                    let has_dev = json_get(scripts, "dev").is_some();
                    let has_start = json_get(scripts, "start").is_some();
                    let has_build = json_get(scripts, "build").is_some();
                    node_services(&package_name, dir, has_dev, has_start, has_build)
                },
            }
        },
    }
}

/// The service entries one Rust package manifest's text offers, for the
/// manifest found in directory `dir`: a single run entry when the manifest
/// describes a package and is not a workspace root.
pub fn parse_cargo_toml(content: &str, dir: &String) -> (services: Vec<Service>)
    ensures
        services.deep_view().len() <= 1,
        forall|i: int| 0 <= i < services.deep_view().len() ==> (#[trigger] services.deep_view()[i]).path
            == dir@ && services.deep_view()[i].project_type == ProjectType::Rust
            && services.deep_view()[i].status == ServiceStatus::Stopped
            && services.deep_view()[i].command == "cargo run"@
            && services.deep_view()[i].logs == Seq::<Seq<char>>::empty(),
{
    let parsed = toml_parse(content);
    match parsed {
        None => Vec::new(),
        Some(v) => {
            match toml_get(&v, "package") {
                None => Vec::new(),
                Some(pkg) => {
                    let package_name = match toml_get(pkg, "name") {
                        Some(n) => match toml_as_string(n) {
                            Some(s) => s,
                            None => "unknown-rust".to_owned(),
                        },
                        None => "unknown-rust".to_owned(),
                    };
                    let workspace = toml_get(&v, "workspace");
                    if workspace.is_none() {
                        let mut services: Vec<Service> = Vec::new();
                        services.push(rust_service(&package_name, dir));
                        proof {
                            assert(services.deep_view() =~= seq![
                                rust_entry(package_name@, dir@),
                            ]);
                        }
                        services
                    } else {
                        Vec::new()
                    }
                },
            }
        },
    }
}

} // verus!
