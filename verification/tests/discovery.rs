use devrunner::cli::Args;
use devrunner::config::AppConfig;
use devrunner::models::{ProjectType, Service, ServiceStatus};
use devrunner::scanner::{
    is_ignored_dir, manifest_kind, node_services, parse_cargo_toml, parse_package_json,
    rust_service,
};

#[test]
fn manifest_kinds_by_file_name() {
    assert!(matches!(manifest_kind("package.json"), Some(ProjectType::Node)));
    assert!(matches!(manifest_kind("Cargo.toml"), Some(ProjectType::Rust)));
    assert!(manifest_kind("Cargo.lock").is_none());
    assert!(manifest_kind("readme.md").is_none());
    assert!(manifest_kind("").is_none());
}

#[test]
fn ignored_directories() {
    assert!(is_ignored_dir("node_modules"));
    assert!(is_ignored_dir("target"));
    assert!(!is_ignored_dir("src"));
    assert!(!is_ignored_dir("targets"));
}

#[test]
fn package_json_offers_one_entry_per_interesting_script() {
    let content = r#"{
        "name": "webapp",
        "scripts": { "dev": "vite", "build": "vite build", "lint": "eslint ." }
    }"#;
    let dir = "/repo/webapp".to_string();
    let services = parse_package_json(content, &dir);
    assert_eq!(services.len(), 2);
    assert_eq!(services[0].name, "webapp: dev");
    assert_eq!(services[0].command, "npm run dev");
    assert_eq!(services[0].path, "/repo/webapp");
    assert!(matches!(services[0].project_type, ProjectType::Node));
    assert!(matches!(services[0].status, ServiceStatus::Stopped));
    assert!(services[0].logs.is_empty());
    assert_eq!(services[1].name, "webapp: build");
    assert_eq!(services[1].command, "npm run build");
}

#[test]
fn package_json_without_name_uses_the_placeholder() {
    let content = r#"{ "scripts": { "start": "node index.js" } }"#;
    let services = parse_package_json(content, &"/repo".to_string());
    assert_eq!(services.len(), 1);
    assert_eq!(services[0].name, "unknown-js: start");
    assert_eq!(services[0].command, "npm run start");
}

#[test]
fn package_json_edge_cases_offer_nothing() {
    let dir = "/repo".to_string();
    assert!(parse_package_json("not json at all", &dir).is_empty());
    assert!(parse_package_json(r#"{ "name": "x" }"#, &dir).is_empty());
    assert!(parse_package_json(r#"{ "name": "x", "scripts": {} }"#, &dir).is_empty());
    assert!(parse_package_json(r#"{ "name": "x", "scripts": "dev" }"#, &dir).is_empty());
}

#[test]
fn node_services_keeps_the_fixed_script_order() {
    let services = node_services(
        &"pkg".to_string(),
        &"/p".to_string(),
        true,
        true,
        true,
    );
    let names: Vec<&str> = services.iter().map(|s| s.name.as_str()).collect();
    assert_eq!(names, ["pkg: dev", "pkg: start", "pkg: build"]);
    assert!(node_services(&"pkg".to_string(), &"/p".to_string(), false, false, false).is_empty());
}

#[test]
fn cargo_toml_offers_a_run_entry_for_a_package() {
    let content = "[package]\nname = \"mytool\"\nversion = \"0.1.0\"\n";
    let services = parse_cargo_toml(content, &"/repo/mytool".to_string());
    assert_eq!(services.len(), 1);
    assert_eq!(services[0].name, "mytool: run");
    assert_eq!(services[0].command, "cargo run");
    assert_eq!(services[0].path, "/repo/mytool");
    assert!(matches!(services[0].project_type, ProjectType::Rust));
}

#[test]
fn cargo_toml_edge_cases_offer_nothing() {
    let dir = "/repo".to_string();
    assert!(parse_cargo_toml("not toml = = =", &dir).is_empty());
    assert!(parse_cargo_toml("[dependencies]\nserde = \"1\"\n", &dir).is_empty());
    let workspace = "[package]\nname = \"root\"\n\n[workspace]\nmembers = [\"a\"]\n";
    assert!(parse_cargo_toml(workspace, &dir).is_empty());
}

#[test]
fn cargo_toml_without_a_name_uses_the_placeholder() {
    let content = "[package]\nversion = \"0.1.0\"\n";
    let services = parse_cargo_toml(content, &"/repo".to_string());
    assert_eq!(services.len(), 1);
    assert_eq!(services[0].name, "unknown-rust: run");
}

#[test]
fn rust_service_builds_the_run_entry() {
    let s = rust_service(&"tool".to_string(), &"/d".to_string());
    assert_eq!(s.name, "tool: run");
    assert_eq!(s.command, "cargo run");
}

#[test]
fn new_service_starts_stopped_with_no_logs() {
    let s = Service::new(
        "svc".to_string(),
        "/d".to_string(),
        ProjectType::Unknown,
        "make run".to_string(),
    );
    assert_eq!(s.name, "svc");
    assert_eq!(s.path, "/d");
    assert_eq!(s.command, "make run");
    assert!(matches!(s.status, ServiceStatus::Stopped));
    assert!(s.logs.is_empty());
}

#[test]
fn duplicate_copies_every_field() {
    let mut s = Service::new(
        "svc".to_string(),
        "/d".to_string(),
        ProjectType::Node,
        "npm run dev".to_string(),
    );
    s.logs.push("a line".to_string());
    s.status = ServiceStatus::Running(5);
    let d = s.duplicate();
    assert_eq!(d.name, s.name);
    assert_eq!(d.path, s.path);
    assert_eq!(d.command, s.command);
    assert_eq!(d.logs, s.logs);
    assert!(matches!(d.status, ServiceStatus::Running(5)));
}

#[test]
fn default_config_and_args() {
    let c = AppConfig::default();
    assert!(c.ignore_paths.is_empty());
    assert!(c.custom_scripts.is_empty());
    let a = Args::default();
    assert_eq!(a.path, ".");
    assert!(a.config.is_none());
}
