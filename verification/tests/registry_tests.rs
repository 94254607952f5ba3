use mcp_gateway::gateway::GatewayError;
use mcp_gateway::models::{EnvVar, Mcp, McpConfig, McpType, ProjectMcpBinding};
use mcp_gateway::registry::{activate_mcp, create_mcp, create_project, get_active_mcps_for_project,
    get_enabled_mcps_with_bindings, make_secret, resolve_config};
use mcp_gateway::strutil::split_before;

fn entry(key: &str, value: &str, is_secret: bool) -> EnvVar {
    EnvVar { key: key.to_string(), value: value.to_string(), is_secret }
}

fn empty_config() -> McpConfig {
    McpConfig {
        docker_image: None,
        binary_path: None,
        http_url: None,
        command: None,
        args: vec![],
        env_vars: vec![],
    }
}

fn mcp(id: &str, name: &str, env: Vec<EnvVar>) -> Mcp {
    Mcp {
        id: id.to_string(),
        name: name.to_string(),
        mcp_type: McpType::Binary,
        config: McpConfig { env_vars: env, ..empty_config() },
        created_at: String::new(),
    }
}

fn binding(mcp_id: &str, enabled: bool, overrides: Vec<EnvVar>) -> ProjectMcpBinding {
    ProjectMcpBinding {
        id: "b".to_string(),
        project_id: "p1".to_string(),
        mcp_id: mcp_id.to_string(),
        enabled,
        overrides,
    }
}

#[test]
fn builders_fill_their_fields_with_fresh_ids() {
    let m = create_mcp("alpha".to_string(), McpType::Docker, empty_config());
    assert_eq!(m.name, "alpha");
    assert!(matches!(m.mcp_type, McpType::Docker));
    assert!(!m.id.is_empty());
    assert!(!m.created_at.is_empty());

    let p = create_project("proj".to_string(), "/tmp/proj".to_string());
    assert_eq!(p.name, "proj");
    assert_eq!(p.path, "/tmp/proj");
    assert_ne!(p.id, m.id);

    let b = activate_mcp("p1".to_string(), m.id.clone(), vec![entry("A", "1", false)]);
    assert_eq!(b.project_id, "p1");
    assert_eq!(b.mcp_id, m.id);
    assert!(b.enabled);
    assert_eq!(b.overrides.len(), 1);

    let s = make_secret("lookup-key-1".to_string());
    assert_eq!(s.key, "lookup-key-1");
    assert!(!s.id.is_empty());
}

#[test]
fn active_mcps_follow_enabled_bindings() {
    let mcps = vec![mcp("m1", "one", vec![]), mcp("m2", "two", vec![]), mcp("m3", "three", vec![])];
    let bindings = vec![binding("m1", true, vec![]), binding("m2", false, vec![]), binding("m4", true, vec![])];
    let active = get_active_mcps_for_project(&bindings, &mcps);
    let names: Vec<&str> = active.iter().map(|m| m.name.as_str()).collect();
    assert_eq!(names, vec!["one"]);
}

#[test]
fn resolve_config_merges_or_reports_what_is_missing() {
    let mcps = vec![mcp("m1", "one", vec![entry("A", "1", false)])];
    let bindings = vec![binding("m1", false, vec![entry("A", "2", true), entry("B", "3", false)])];
    let r = resolve_config(&mcps, &bindings, &"m1".to_string()).unwrap();
    let keys: Vec<&str> = r.iter().map(|e| e.key.as_str()).collect();
    assert_eq!(keys, vec!["A", "B"]);
    assert_eq!(r[0].value, "2");
    assert!(r[0].is_secret);

    let e = resolve_config(&mcps, &bindings, &"nope".to_string()).unwrap_err();
    assert_eq!(e, GatewayError::McpNotFound);
    let mcps2 = vec![mcp("m2", "two", vec![])];
    let e = resolve_config(&mcps2, &bindings, &"m2".to_string()).unwrap_err();
    assert_eq!(e, GatewayError::BindingNotFound);
}

#[test]
fn tool_token_is_the_part_before_the_first_separator() {
    assert_eq!(split_before("docker-echo__execute", "__"), "docker-echo");
    assert_eq!(split_before("a__b__c", "__"), "a");
    assert_eq!(split_before("__x", "__"), "");
    assert_eq!(split_before("plain", "__"), "plain");
    assert_eq!(split_before("", "__"), "");
}

#[test]
fn enabled_join_pairs_providers_with_their_bindings() {
    let mcps = vec![mcp("m1", "one", vec![]), mcp("m2", "two", vec![])];
    let bindings = vec![
        binding("m2", true, vec![]),
        binding("m1", false, vec![]),
        binding("m1", true, vec![]),
    ];
    let pairs = get_enabled_mcps_with_bindings(&mcps, &bindings);
    assert_eq!(pairs.len(), 2);
    assert_eq!(pairs[0].0.id, "m1");
    assert!(pairs[0].1.enabled);
    assert_eq!(pairs[1].0.id, "m2");
    assert_eq!(pairs[1].1.mcp_id, "m2");
}
