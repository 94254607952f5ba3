use mcp_gateway::dispatch::{ExecutionPlan, normalize_http_result, normalize_subprocess_result,
    plan_execution};
use mcp_gateway::jsontext::wrap_raw_output;
use mcp_gateway::models::{EnvVar, Mcp, McpConfig, McpType};

fn entry(key: &str, value: &str, is_secret: bool) -> EnvVar {
    EnvVar { key: key.to_string(), value: value.to_string(), is_secret }
}

fn mcp_with(mcp_type: McpType, image: Option<&str>, path: Option<&str>, url: Option<&str>) -> Mcp {
    Mcp {
        id: "m1".to_string(),
        name: "tool".to_string(),
        mcp_type,
        config: McpConfig {
            docker_image: image.map(|s| s.to_string()),
            binary_path: path.map(|s| s.to_string()),
            http_url: url.map(|s| s.to_string()),
            command: None,
            args: vec![],
            env_vars: vec![],
        },
        created_at: "2024-01-01T00:00:00+00:00".to_string(),
    }
}

#[test]
fn container_plan_builds_docker_run_arguments() {
    let m = mcp_with(McpType::Docker, Some("echo:latest"), None, None);
    let env = vec![entry("A", "1", false), entry("B", "two", true)];
    let plan = plan_execution(&m, &env, &"{\"x\":1}".to_string()).unwrap();
    match plan {
        ExecutionPlan::RunContainer { args } => {
            assert_eq!(
                args,
                vec!["run", "--rm", "-e", "A=1", "-e", "B=two", "echo:latest", "{\"x\":1}"]
            );
        },
        _ => panic!("expected a container plan"),
    }
}

#[test]
fn binary_plan_keeps_env_and_single_argument() {
    let m = mcp_with(McpType::Binary, None, Some("/usr/bin/tool"), None);
    let env = vec![entry("K", "V", false)];
    let plan = plan_execution(&m, &env, &"{}".to_string()).unwrap();
    match plan {
        ExecutionPlan::RunBinary { path, env, arg } => {
            assert_eq!(path, "/usr/bin/tool");
            assert_eq!(env.len(), 1);
            assert_eq!(env[0].key, "K");
            assert_eq!(env[0].value, "V");
            assert_eq!(arg, "{}");
        },
        _ => panic!("expected a binary plan"),
    }
}

#[test]
fn http_plan_translates_header_entries_only() {
    let m = mcp_with(McpType::Http, None, None, Some("https://x/y"));
    let env = vec![
        entry("header_Authorization", "Bearer t", false),
        entry("plain", "not sent", false),
        entry("HEADER_X-Trace", "1", false),
    ];
    let plan = plan_execution(&m, &env, &"{\"x\":1}".to_string()).unwrap();
    match plan {
        ExecutionPlan::HttpPost { url, headers, body } => {
            assert_eq!(url, "https://x/y");
            assert_eq!(
                headers,
                vec![
                    ("Authorization".to_string(), "Bearer t".to_string()),
                    ("X-Trace".to_string(), "1".to_string()),
                ]
            );
            assert_eq!(body, "{\"x\":1}");
        },
        _ => panic!("expected an HTTP plan"),
    }
}

#[test]
fn missing_transport_config_fails_with_its_message() {
    for (kind, message) in [
        (McpType::Docker, "No docker image specified"),
        (McpType::Binary, "No binary path specified"),
        (McpType::Http, "No HTTP URL specified"),
    ] {
        let m = mcp_with(kind, None, None, None);
        match plan_execution(&m, &vec![], &"{}".to_string()) {
            Err(e) => assert_eq!(e, message),
            Ok(_) => panic!("expected an error"),
        }
    }
}

#[test]
fn subprocess_output_is_kept_when_json_and_wrapped_when_not() {
    let r = normalize_subprocess_result(true, &"{\"ok\": true}".to_string(), &String::new());
    assert_eq!(r.unwrap(), "{\"ok\": true}");
    let r = normalize_subprocess_result(true, &"plain text".to_string(), &String::new());
    assert_eq!(r.unwrap(), "{\"output\":\"plain text\"}");
    let r = normalize_subprocess_result(false, &"ignored".to_string(), &"boom".to_string());
    assert_eq!(r.unwrap_err(), "boom");
}

#[test]
fn http_result_hard_fails_on_non_json_body() {
    let r = normalize_http_result(true, &"200 OK".to_string(), &"[1,2]".to_string());
    assert_eq!(r.unwrap(), "[1,2]");
    let r = normalize_http_result(true, &"200 OK".to_string(), &"plain".to_string());
    assert!(r.is_err());
    let r = normalize_http_result(false, &"404 Not Found".to_string(), &String::new());
    assert_eq!(r.unwrap_err(), "HTTP error: 404 Not Found");
}

#[test]
fn wrapped_output_matches_the_json_serializer() {
    for text in ["hi", "a\"b\\c\nd\te\rf", "unicode \u{00e9}\u{1f600}", "ctl\u{1}\u{1f}", ""] {
        let wrapped = wrap_raw_output(text);
        let mut map = serde_json::Map::new();
        map.insert("output".to_string(), serde_json::Value::String(text.to_string()));
        let expected = serde_json::to_string(&serde_json::Value::Object(map)).unwrap();
        assert_eq!(wrapped, expected);
        let v: serde_json::Value = serde_json::from_str(&wrapped).unwrap();
        assert_eq!(v.get("output").unwrap().as_str().unwrap(), text);
    }
}

#[test]
fn client_config_document_names_the_bridge_command() {
    let text = mcp_gateway::jsontext::generate_mcp_config("/opt/bridge/mcp-stdio");
    let v: serde_json::Value = serde_json::from_str(&text).unwrap();
    let entry = v.get("mcpServers").unwrap().get("mcp-manager").unwrap();
    assert_eq!(entry.get("command").unwrap().as_str().unwrap(), "/opt/bridge/mcp-stdio");
    assert_eq!(entry.get("args").unwrap().as_array().unwrap().len(), 0);
}
