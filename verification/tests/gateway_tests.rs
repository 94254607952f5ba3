use mcp_gateway::gateway::{ActiveProjectRegister, GatewayError, apply_secrets, finish_invoke,
    list_tools, route_invoke};
use mcp_gateway::models::{EnvVar, Mcp, McpConfig, McpType, ProjectMcpBinding};
use mcp_gateway::vault::SecretManager;

fn entry(key: &str, value: &str, is_secret: bool) -> EnvVar {
    EnvVar { key: key.to_string(), value: value.to_string(), is_secret }
}

fn config(image: Option<&str>, path: Option<&str>, url: Option<&str>, env: Vec<EnvVar>) -> McpConfig {
    McpConfig {
        docker_image: image.map(|s| s.to_string()),
        binary_path: path.map(|s| s.to_string()),
        http_url: url.map(|s| s.to_string()),
        command: None,
        args: vec![],
        env_vars: env,
    }
}

fn mcp(id: &str, name: &str, mcp_type: McpType, config: McpConfig) -> Mcp {
    Mcp {
        id: id.to_string(),
        name: name.to_string(),
        mcp_type,
        config,
        created_at: "2024-01-01T00:00:00+00:00".to_string(),
    }
}

fn binding(id: &str, project: &str, mcp_id: &str, enabled: bool, overrides: Vec<EnvVar>) -> ProjectMcpBinding {
    ProjectMcpBinding {
        id: id.to_string(),
        project_id: project.to_string(),
        mcp_id: mcp_id.to_string(),
        enabled,
        overrides,
    }
}

#[test]
fn register_starts_empty_and_set_overwrites() {
    let mut reg = ActiveProjectRegister::new();
    assert_eq!(reg.get(), None);
    reg.set("p1".to_string());
    assert_eq!(reg.get(), Some("p1".to_string()));
    reg.set("p2".to_string());
    assert_eq!(reg.get(), Some("p2".to_string()));
}

#[test]
fn invoke_without_project_is_bad_request_whatever_the_tool() {
    let mcps = vec![mcp("m1", "docker-echo", McpType::Docker, config(Some("echo:latest"), None, None, vec![]))];
    let bindings = vec![binding("b1", "p1", "m1", true, vec![])];
    for tool in ["docker-echo__execute", "", "nonsense", "__", "m1__x__y"] {
        let r = route_invoke(&None, &tool.to_string(), &mcps, &bindings);
        assert_eq!(r.unwrap_err(), GatewayError::BadRequest);
    }
}

#[test]
fn list_tools_without_project_is_bad_request() {
    let r = list_tools(&None, &vec![], &vec![]);
    assert_eq!(r.unwrap_err(), GatewayError::BadRequest);
}

#[test]
fn list_tools_excludes_disabled_and_dangling_bindings() {
    let mcps = vec![
        mcp("m1", "alpha", McpType::Docker, config(Some("a:1"), None, None, vec![])),
        mcp("m2", "beta", McpType::Binary, config(None, Some("/bin/beta"), None, vec![])),
    ];
    let bindings = vec![
        binding("b1", "p1", "m1", true, vec![]),
        binding("b2", "p1", "m2", false, vec![]),
        binding("b3", "p1", "gone", true, vec![]),
    ];
    let tools = list_tools(&Some("p1".to_string()), &bindings, &mcps).unwrap();
    assert_eq!(tools.len(), 1);
    assert_eq!(tools[0].name, "alpha__execute");
    assert_eq!(tools[0].description, "Execute tool from MCP: alpha");
    assert_eq!(tools[0].mcp_id, "m1");
    assert_eq!(tools[0].mcp_name, "alpha");
}

#[test]
fn route_invoke_matches_by_name_or_id_and_merges() {
    let mcps = vec![
        mcp(
            "m1",
            "docker-echo",
            McpType::Docker,
            config(Some("echo:latest"), None, None, vec![entry("A", "1", false)]),
        ),
    ];
    let bindings = vec![binding("b1", "p1", "m1", true, vec![entry("A", "2", false)])];
    let active = Some("p1".to_string());
    let (mi, env) = route_invoke(&active, &"docker-echo__execute".to_string(), &mcps, &bindings).unwrap();
    assert_eq!(mi, 0);
    assert_eq!(env.len(), 1);
    assert_eq!(env[0].value, "2");
    // By id as well.
    let (mi2, _) = route_invoke(&active, &"m1__execute".to_string(), &mcps, &bindings).unwrap();
    assert_eq!(mi2, 0);
}

#[test]
fn route_invoke_unknown_provider_and_missing_binding() {
    let mcps = vec![mcp("m1", "alpha", McpType::Docker, config(Some("a:1"), None, None, vec![]))];
    let bindings = vec![binding("b1", "p1", "other", true, vec![])];
    let active = Some("p1".to_string());
    let r = route_invoke(&active, &"missing__execute".to_string(), &mcps, &bindings);
    assert_eq!(r.unwrap_err(), GatewayError::McpNotFound);
    let r2 = route_invoke(&active, &"alpha__execute".to_string(), &mcps, &bindings);
    assert_eq!(r2.unwrap_err(), GatewayError::BindingNotFound);
}

#[test]
fn disabled_binding_can_still_be_invoked() {
    let mcps = vec![mcp("m1", "alpha", McpType::Docker, config(Some("a:1"), None, None, vec![]))];
    let bindings = vec![binding("b1", "p1", "m1", false, vec![])];
    let active = Some("p1".to_string());
    assert!(route_invoke(&active, &"alpha__execute".to_string(), &mcps, &bindings).is_ok());
}

#[test]
fn missing_secret_record_leaves_entry_unchanged() {
    let vault = SecretManager::new(&[7u8; 32]);
    let mut env = vec![entry("api_token", "lookup-key-1", true)];
    let fetched: Vec<Option<String>> = vec![None];
    apply_secrets(&vault, &mut env, &fetched);
    assert_eq!(env[0].key, "api_token");
    assert_eq!(env[0].value, "lookup-key-1");
    assert!(env[0].is_secret);
}

#[test]
fn stored_secret_is_decrypted_into_the_entry() {
    let vault = SecretManager::new(&[7u8; 32]);
    let blob = vault.encrypt("the-real-secret").unwrap();
    let mut env = vec![
        entry("api_token", "lookup-key-1", true),
        entry("plain", "stays", false),
    ];
    let fetched: Vec<Option<String>> = vec![Some(blob), Some("ignored".to_string())];
    apply_secrets(&vault, &mut env, &fetched);
    assert_eq!(env[0].value, "the-real-secret");
    assert!(env[0].is_secret);
    assert_eq!(env[1].value, "stays");
}

#[test]
fn undecryptable_secret_blob_is_tolerated_unchanged() {
    let vault = SecretManager::new(&[7u8; 32]);
    let mut env = vec![entry("api_token", "lookup-key-1", true)];
    let fetched: Vec<Option<String>> = vec![Some("not a valid blob".to_string())];
    apply_secrets(&vault, &mut env, &fetched);
    assert_eq!(env[0].value, "lookup-key-1");
}

#[test]
fn finish_invoke_builds_one_matching_record() {
    let (resp, log) = finish_invoke(
        Ok("{\"ok\":true}".to_string()),
        &"p1".to_string(),
        &"m1".to_string(),
        &"alpha__execute".to_string(),
        42,
    );
    assert_eq!(resp.status, 200);
    assert_eq!(resp.result, "{\"ok\":true}");
    assert_eq!(resp.error, None);
    assert_eq!(log.status, "success");
    assert_eq!(log.project_id, "p1");
    assert_eq!(log.mcp_id, "m1");
    assert_eq!(log.tool_name, "alpha__execute");
    assert_eq!(log.duration_ms, 42);
    assert!(log.duration_ms >= 0);
    assert_eq!(log.error, None);
    assert!(!log.id.is_empty());

    let (resp2, log2) = finish_invoke(
        Err("spawn failed".to_string()),
        &"p1".to_string(),
        &"m1".to_string(),
        &"alpha__execute".to_string(),
        7,
    );
    assert_eq!(resp2.status, 500);
    assert_eq!(resp2.result, "{}");
    assert_eq!(resp2.error.as_deref(), Some("spawn failed"));
    assert_eq!(log2.status, "error");
    assert_eq!(log2.error.as_deref(), Some("spawn failed"));
    assert!(log2.duration_ms >= 0);
    assert_ne!(log.id, log2.id);
}

#[test]
fn gateway_error_status_and_message() {
    assert_eq!(GatewayError::BadRequest.status_code(), 400);
    assert_eq!(GatewayError::McpNotFound.status_code(), 404);
    assert_eq!(GatewayError::BindingNotFound.status_code(), 404);
    assert_eq!(GatewayError::BadRequest.message(), "No project set");
    assert_eq!(GatewayError::McpNotFound.message(), "MCP not found");
    assert_eq!(GatewayError::BindingNotFound.message(), "Binding not found");
}
