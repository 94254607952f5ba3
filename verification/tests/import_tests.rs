use mcp_gateway::import::{convert_to_mcp_config, detect_mcp_type, import_previews,
    is_likely_secret, parse_mcp_json};
use mcp_gateway::models::{McpServerConfig, McpServersWrapper, McpType};

fn server(command: &str, args: Vec<&str>, env: Vec<(&str, &str)>) -> McpServerConfig {
    McpServerConfig {
        command: command.to_string(),
        args: args.into_iter().map(|s| s.to_string()).collect(),
        env: env.into_iter().map(|(k, v)| (k.to_string(), v.to_string())).collect(),
    }
}

#[test]
fn secret_looking_keys_are_flagged() {
    assert!(is_likely_secret("API_KEY"));
    assert!(is_likely_secret("password"));
    assert!(is_likely_secret("GitHub_Token"));
    assert!(is_likely_secret("OAUTH_CLIENT"));
    assert!(is_likely_secret("the-secret-sauce"));
    assert!(!is_likely_secret("PATH"));
    assert!(!is_likely_secret("HOME"));
    assert!(!is_likely_secret(""));
}

#[test]
fn transport_kind_follows_the_command_string() {
    assert!(matches!(detect_mcp_type(&server("docker", vec![], vec![])), McpType::Docker));
    assert!(matches!(detect_mcp_type(&server("run-docker-image", vec![], vec![])), McpType::Docker));
    assert!(matches!(detect_mcp_type(&server("https://api.example", vec![], vec![])), McpType::Http));
    assert!(matches!(detect_mcp_type(&server("http://api.example", vec![], vec![])), McpType::Http));
    assert!(matches!(detect_mcp_type(&server("node", vec![], vec![])), McpType::Binary));
    assert!(matches!(detect_mcp_type(&server("", vec![], vec![])), McpType::Binary));
}

#[test]
fn docker_conversion_takes_first_argument_as_image() {
    let c = server("docker", vec!["img:1", "extra"], vec![("API_KEY", "k"), ("PLAIN", "v")]);
    let r = convert_to_mcp_config(c, &McpType::Docker);
    assert_eq!(r.docker_image.as_deref(), Some("img:1"));
    assert_eq!(r.binary_path, None);
    assert_eq!(r.http_url, None);
    assert_eq!(r.command.as_deref(), Some("docker"));
    assert_eq!(r.args, vec!["img:1", "extra"]);
    assert_eq!(r.env_vars.len(), 2);
    assert_eq!(r.env_vars[0].key, "API_KEY");
    assert!(r.env_vars[0].is_secret);
    assert_eq!(r.env_vars[1].key, "PLAIN");
    assert!(!r.env_vars[1].is_secret);
}

#[test]
fn docker_conversion_without_arguments_has_no_image() {
    let r = convert_to_mcp_config(server("docker", vec![], vec![]), &McpType::Docker);
    assert_eq!(r.docker_image, None);
}

#[test]
fn http_and_binary_conversion_fill_their_single_field() {
    let r = convert_to_mcp_config(server("https://x", vec![], vec![]), &McpType::Http);
    assert_eq!(r.http_url.as_deref(), Some("https://x"));
    assert_eq!(r.docker_image, None);
    assert_eq!(r.binary_path, None);
    let r = convert_to_mcp_config(server("/bin/tool", vec!["-v"], vec![]), &McpType::Binary);
    assert_eq!(r.binary_path.as_deref(), Some("/bin/tool"));
    assert_eq!(r.http_url, None);
}

#[test]
fn manifest_entries_convert_in_document_order() {
    let wrapper = McpServersWrapper {
        mcp_servers: vec![
            ("echo".to_string(), server("docker", vec!["echo:1"], vec![])),
            ("api".to_string(), server("https://x/y", vec![], vec![("token", "t")])),
        ],
    };
    let r = parse_mcp_json(wrapper);
    assert_eq!(r.len(), 2);
    assert_eq!(r[0].0, "echo");
    assert_eq!(r[0].1.docker_image.as_deref(), Some("echo:1"));
    assert_eq!(r[1].0, "api");
    assert_eq!(r[1].1.http_url.as_deref(), Some("https://x/y"));
    assert!(r[1].1.env_vars[0].is_secret);
}

#[test]
fn previews_read_the_kind_back_from_the_config() {
    let wrapper = McpServersWrapper {
        mcp_servers: vec![
            ("a".to_string(), server("docker", vec!["i:1"], vec![])),
            ("b".to_string(), server("https://x", vec![], vec![])),
            ("c".to_string(), server("/bin/c", vec!["-x"], vec![])),
        ],
    };
    let parsed = parse_mcp_json(wrapper);
    let previews = import_previews(&parsed);
    assert_eq!(previews.len(), 3);
    assert_eq!(previews[0].name, "a");
    assert!(matches!(previews[0].mcp_type, McpType::Docker));
    assert!(matches!(previews[1].mcp_type, McpType::Http));
    assert!(matches!(previews[2].mcp_type, McpType::Binary));
    assert_eq!(previews[2].command.as_deref(), Some("/bin/c"));
    assert_eq!(previews[2].args, vec!["-x"]);
}
