//! Import of third-party tool-manifest documents: classifying each entry's
//! transport kind from its command string, flagging secret-looking
//! environment keys, and building the provider configuration.
use vstd::prelude::*;
use crate::models::{EnvVar, EnvVarView, McpConfig, McpConfigView, McpType, McpServerConfig,
    McpServerConfigView, McpServersWrapper, ImportPreview, clone_opt_string, clone_string_vec,
    env_views, opt_view, str_views};
use crate::strutil::{contains_seq, contains_seq_ci, has_prefix, contains_str, contains_str_ci,
    has_prefix_str};

verus! {

/// A key looks secret when it contains `key`, `secret`, `token`, `password`
/// or `auth`, in any ASCII case.
pub open spec fn likely_secret(key: Seq<char>) -> bool {
    contains_seq_ci(key, "key"@) || contains_seq_ci(key, "secret"@) || contains_seq_ci(
        key,
        "token"@,
    ) || contains_seq_ci(key, "password"@) || contains_seq_ci(key, "auth"@)
}

/// Whether an imported environment key should be flagged secret, as
/// [`likely_secret`] describes.
pub fn is_likely_secret(key: &str) -> (r: bool)
    ensures
        r == likely_secret(key@),
{
    contains_str_ci(key, "key") || contains_str_ci(key, "secret") || contains_str_ci(key, "token")
        || contains_str_ci(key, "password") || contains_str_ci(key, "auth")
}

/// The transport kind an imported command string points to: a command
/// mentioning `docker` runs a container, one starting with `http` is a
/// remote endpoint, anything else a local executable.
pub open spec fn detect_spec(c: McpServerConfigView) -> McpType {
    if has_prefix(c.command, "docker"@) || contains_seq(c.command, "docker"@) {
        McpType::Docker
    } else if has_prefix(c.command, "http"@) || has_prefix(c.command, "https"@) {
        McpType::Http
    } else {
        McpType::Binary
    }
}

/// Classifies an imported entry's transport kind, as [`detect_spec`]
/// describes.
pub fn detect_mcp_type(config: &McpServerConfig) -> (r: McpType)
    ensures
        r == detect_spec(config@),
{
    if has_prefix_str(config.command.as_str(), "docker") || contains_str(
        config.command.as_str(),
        "docker",
    ) {
        McpType::Docker
    } else if has_prefix_str(config.command.as_str(), "http") || has_prefix_str(
        config.command.as_str(),
        "https",
    ) {
        McpType::Http
    } else {
        McpType::Binary
    }
}

/// The environment entries an imported entry's pairs become: key and value
/// in written order, flagged secret by [`likely_secret`].
pub open spec fn import_env(pairs: Seq<(Seq<char>, Seq<char>)>) -> Seq<EnvVarView> {
    pairs.map_values(
        |p: (Seq<char>, Seq<char>)| EnvVarView { key: p.0, value: p.1, is_secret: likely_secret(p.0) },
    )
}

/// The provider configuration an imported entry becomes under a transport
/// kind: exactly one transport field is filled — the first argument as the
/// container image, or the command as the remote URL or executable path.
pub open spec fn convert_spec(c: McpServerConfigView, t: McpType) -> McpConfigView {
    McpConfigView {
        docker_image: if t is Docker {
            if c.args.len() > 0 {
                Some(c.args[0])
            } else {
                None
            }
        } else {
            None
        },
        binary_path: if t is Binary {
            Some(c.command)
        } else {
            None
        },
        http_url: if t is Http {
            Some(c.command)
        } else {
            None
        },
        command: Some(c.command),
        args: c.args,
        env_vars: import_env(c.env),
    }
}

/// Builds the provider configuration of an imported entry, as
/// [`convert_spec`] describes.
pub fn convert_to_mcp_config(config: McpServerConfig, mcp_type: &McpType) -> (r: McpConfig)
    ensures
        r@ == convert_spec(config@, *mcp_type),
{
    let ghost pv = config@.env;
    let mut env_vars: Vec<EnvVar> = Vec::new();
    let n: usize = config.env.len();
    let mut i: usize = 0;
    while i < n
        invariant
            n == config.env@.len(),
            pv == config@.env,
            0 <= i <= n,
            env_views(env_vars@) =~= import_env(pv.take(i as int)),
        decreases n - i,
    {
        let is_secret = is_likely_secret(config.env[i].0.as_str());
        env_vars.push(
            EnvVar { key: config.env[i].0.clone(), value: config.env[i].1.clone(), is_secret },
        );
        assert(env_views(env_vars@) =~= import_env(pv.take(i + 1))) by {
            assert(import_env(pv.take(i + 1)) =~= import_env(pv.take(i as int)).push(
                EnvVarView { key: pv[i as int].0, value: pv[i as int].1, is_secret: likely_secret(pv[i as int].0) },
            ));
        }
        i += 1;
    }
    assert(pv.take(n as int) =~= pv);
    let docker_image: Option<String> = match mcp_type {
        McpType::Docker => if config.args.len() > 0 {
            Some(config.args[0].clone())
        } else {
            None
        },
        _ => None,
    };
    let binary_path: Option<String> = match mcp_type {
        McpType::Binary => Some(config.command.clone()),
        _ => None,
    };
    let http_url: Option<String> = match mcp_type {
        McpType::Http => Some(config.command.clone()),
        _ => None,
    };
    McpConfig {
        docker_image,
        binary_path,
        http_url,
        command: Some(config.command),
        args: config.args,
        env_vars,
    }
}

/// What each entry of a decoded manifest becomes: its name with the
/// configuration built by [`convert_spec`] under the kind of
/// [`detect_spec`], in document order.
pub fn parse_mcp_json(wrapper: McpServersWrapper) -> (r: Vec<(String, McpConfig)>)
    ensures
        r@.len() == wrapper.mcp_servers@.len(),
        forall|i: int|
            0 <= i < r@.len() ==> (#[trigger] r@[i]).0@ == wrapper.mcp_servers@[i].0@ && r@[i].1@
                == convert_spec(
                wrapper.mcp_servers@[i].1@,
                detect_spec(wrapper.mcp_servers@[i].1@),
            ),
{
    let ghost sv = wrapper.mcp_servers@;
    let mut out: Vec<(String, McpConfig)> = Vec::new();
    let n: usize = wrapper.mcp_servers.len();
    let mut i: usize = 0;
    while i < n
        invariant
            n == sv.len(),
            sv == wrapper.mcp_servers@,
            0 <= i <= n,
            out@.len() == i,
            forall|k: int|
                0 <= k < i ==> (#[trigger] out@[k]).0@ == sv[k].0@ && out@[k].1@ == convert_spec(
                    sv[k].1@,
                    detect_spec(sv[k].1@),
                ),
        decreases n - i,
    {
        let name = wrapper.mcp_servers[i].0.clone();
        let config = wrapper.mcp_servers[i].1.clone();
        let mcp_type = detect_mcp_type(&config);
        let mcp_config = convert_to_mcp_config(config, &mcp_type);
        out.push((name, mcp_config));
        i += 1;
    }
    out
}

/// What an import of a decoded manifest would create: one preview per
/// entry, its kind read back from the one transport field the conversion
/// filled.
pub fn import_previews(parsed: &Vec<(String, McpConfig)>) -> (r: Vec<ImportPreview>)
    ensures
        r@.len() == parsed@.len(),
        forall|i: int|
            0 <= i < r@.len() ==> {
                let p = #[trigger] parsed@[i];
                let e = r@[i];
                e.name@ == p.0@ && e.mcp_type == (if p.1@.docker_image is Some {
                    McpType::Docker
                } else if p.1@.http_url is Some {
                    McpType::Http
                } else {
                    McpType::Binary
                }) && opt_view(e.command) == p.1@.command && str_views(e.args@) == p.1@.args
            },
{
    let mut out: Vec<ImportPreview> = Vec::new();
    let n: usize = parsed.len();
    let mut i: usize = 0;
    while i < n
        invariant
            n == parsed@.len(),
            0 <= i <= n,
            out@.len() == i,
            forall|k: int|
                0 <= k < i ==> {
                    let p = #[trigger] parsed@[k];
                    let e = out@[k];
                    e.name@ == p.0@ && e.mcp_type == (if p.1@.docker_image is Some {
                        McpType::Docker
                    } else if p.1@.http_url is Some {
                        McpType::Http
                    } else {
                        McpType::Binary
                    }) && opt_view(e.command) == p.1@.command && str_views(e.args@) == p.1@.args
                },
        decreases n - i,
    {
        let mcp_type = if parsed[i].1.docker_image.is_some() {
            McpType::Docker
        } else if parsed[i].1.http_url.is_some() {
            McpType::Http
        } else {
            McpType::Binary
        };
        out.push(
            ImportPreview {
                name: parsed[i].0.clone(),
                mcp_type,
                command: clone_opt_string(&parsed[i].1.command),
                args: clone_string_vec(&parsed[i].1.args),
            },
        );
        i += 1;
    }
    out
}

} // verus!
