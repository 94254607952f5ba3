//! End-to-end scenarios through the gateway: select a project, activate a
//! provider, list and invoke, plan the dispatch, and normalize the outcome.
use mcp_gateway::dispatch::{ExecutionPlan, normalize_subprocess_result, plan_execution};
use mcp_gateway::gateway::{ActiveProjectRegister, apply_secrets, finish_invoke, list_tools,
    route_invoke};
use mcp_gateway::models::{EnvVar, McpConfig, McpType};
use mcp_gateway::registry::{activate_mcp, create_mcp};
use mcp_gateway::vault::SecretManager;

fn entry(key: &str, value: &str, is_secret: bool) -> EnvVar {
    EnvVar { key: key.to_string(), value: value.to_string(), is_secret }
}

#[test]
fn container_provider_lists_and_dispatches() {
    let mut register = ActiveProjectRegister::new();
    register.set("p1".to_string());

    let provider = create_mcp(
        "docker-echo".to_string(),
        McpType::Docker,
        McpConfig {
            docker_image: Some("echo:latest".to_string()),
            binary_path: None,
            http_url: None,
            command: None,
            args: vec![],
            env_vars: vec![],
        },
    );
    let bindings = vec![activate_mcp("p1".to_string(), provider.id.clone(), vec![])];
    let mcps = vec![provider];

    let active = register.get();
    let tools = list_tools(&active, &bindings, &mcps).unwrap();
    assert_eq!(tools.len(), 1);
    assert_eq!(tools[0].name, "docker-echo__execute");

    let (mi, env) = route_invoke(&active, &"docker-echo__execute".to_string(), &mcps, &bindings)
        .unwrap();
    let plan = plan_execution(&mcps[mi], &env, &"{\"x\":1}".to_string()).unwrap();
    match plan {
        ExecutionPlan::RunContainer { args } => {
            assert_eq!(args, vec!["run", "--rm", "echo:latest", "{\"x\":1}"]);
        },
        _ => panic!("expected a container plan"),
    }

    // The container printed JSON: returned verbatim.
    let out = normalize_subprocess_result(true, &"{\"echoed\":1}".to_string(), &String::new());
    assert_eq!(out.unwrap(), "{\"echoed\":1}");
    // The container printed plain text: wrapped.
    let out = normalize_subprocess_result(true, &"hello".to_string(), &String::new());
    assert_eq!(out.unwrap(), "{\"output\":\"hello\"}");
}

#[test]
fn remote_provider_sends_override_as_header() {
    let mut register = ActiveProjectRegister::new();
    register.set("p1".to_string());

    let provider = create_mcp(
        "remote-api".to_string(),
        McpType::Http,
        McpConfig {
            docker_image: None,
            binary_path: None,
            http_url: Some("https://x/y".to_string()),
            command: None,
            args: vec![],
            env_vars: vec![],
        },
    );
    let bindings = vec![activate_mcp(
        "p1".to_string(),
        provider.id.clone(),
        vec![entry("header_Authorization", "Bearer t", false)],
    )];
    let mcps = vec![provider];

    let active = register.get();
    let (mi, env) = route_invoke(&active, &"remote-api__execute".to_string(), &mcps, &bindings)
        .unwrap();
    let plan = plan_execution(&mcps[mi], &env, &"{\"x\":1}".to_string()).unwrap();
    match plan {
        ExecutionPlan::HttpPost { url, headers, body } => {
            assert_eq!(url, "https://x/y");
            assert_eq!(headers, vec![("Authorization".to_string(), "Bearer t".to_string())]);
            assert_eq!(body, "{\"x\":1}");
        },
        _ => panic!("expected an HTTP plan"),
    }
}

#[test]
fn full_invoke_resolves_secrets_and_logs_once() {
    let vault = SecretManager::new(&[3u8; 32]);
    let stored = vault.encrypt("real-token").unwrap();

    let mut register = ActiveProjectRegister::new();
    register.set("p1".to_string());
    let provider = create_mcp(
        "runner".to_string(),
        McpType::Binary,
        McpConfig {
            docker_image: None,
            binary_path: Some("/bin/runner".to_string()),
            http_url: None,
            command: None,
            args: vec![],
            env_vars: vec![entry("api_token", "lookup-key-1", true)],
        },
    );
    let bindings = vec![activate_mcp("p1".to_string(), provider.id.clone(), vec![])];
    let mcps = vec![provider];

    let active = register.get();
    let (mi, mut env) = route_invoke(&active, &"runner__execute".to_string(), &mcps, &bindings)
        .unwrap();
    // The store had a record for the entry's lookup key.
    let fetched = vec![Some(stored)];
    apply_secrets(&vault, &mut env, &fetched);
    assert_eq!(env[0].value, "real-token");

    let plan = plan_execution(&mcps[mi], &env, &"{}".to_string()).unwrap();
    match plan {
        ExecutionPlan::RunBinary { env, .. } => {
            assert_eq!(env[0].value, "real-token");
        },
        _ => panic!("expected a binary plan"),
    }

    let outcome = normalize_subprocess_result(true, &"{\"done\":true}".to_string(), &String::new());
    let (resp, log) = finish_invoke(
        outcome,
        &"p1".to_string(),
        &mcps[mi].id,
        &"runner__execute".to_string(),
        5,
    );
    assert_eq!(resp.status, 200);
    assert_eq!(log.status, "success");
    assert_eq!(log.mcp_id, mcps[mi].id);
    assert!(log.duration_ms >= 0);
}
