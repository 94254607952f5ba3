//! Data model of the registry: providers (MCPs), projects, bindings,
//! environment entries, secret records and audit-log rows, with their
//! mathematical views.
use vstd::prelude::*;

verus! {

/// One environment entry: when `is_secret` holds, `value` is a lookup key
/// into the secret store, not the secret itself.
#[derive(Debug)]
pub struct EnvVar {
    pub key: String,
    pub value: String,
    pub is_secret: bool,
}

/// Mathematical view of an [`EnvVar`].
pub struct EnvVarView {
    pub key: Seq<char>,
    pub value: Seq<char>,
    pub is_secret: bool,
}

impl View for EnvVar {
    type V = EnvVarView;

    open spec fn view(&self) -> EnvVarView {
        EnvVarView { key: self.key@, value: self.value@, is_secret: self.is_secret }
    }
}

impl Clone for EnvVar {
    fn clone(&self) -> (r: Self)
        ensures
            r@ == self@,
    {
        EnvVar { key: self.key.clone(), value: self.value.clone(), is_secret: self.is_secret }
    }
}

/// The views of a sequence of environment entries, element by element.
pub open spec fn env_views(s: Seq<EnvVar>) -> Seq<EnvVarView> {
    s.map_values(|e: EnvVar| e@)
}

/// Transport kind of a provider.
#[derive(Clone, Copy, PartialEq, Eq, Structural, Debug)]
pub enum McpType {
    Docker,
    Binary,
    Http,
}

/// Transport-specific configuration of a provider.
#[derive(Debug)]
pub struct McpConfig {
    pub docker_image: Option<String>,
    pub binary_path: Option<String>,
    pub http_url: Option<String>,
    pub command: Option<String>,
    pub args: Vec<String>,
    pub env_vars: Vec<EnvVar>,
}

/// Mathematical view of an [`McpConfig`].
pub struct McpConfigView {
    pub docker_image: Option<Seq<char>>,
    pub binary_path: Option<Seq<char>>,
    pub http_url: Option<Seq<char>>,
    pub command: Option<Seq<char>>,
    pub args: Seq<Seq<char>>,
    pub env_vars: Seq<EnvVarView>,
}

/// The view of an optional string.
pub open spec fn opt_view(o: Option<String>) -> Option<Seq<char>> {
    match o {
        Some(s) => Some(s@),
        None => None,
    }
}

/// The views of a sequence of strings, element by element.
pub open spec fn str_views(s: Seq<String>) -> Seq<Seq<char>> {
    s.map_values(|x: String| x@)
}

impl View for McpConfig {
    type V = McpConfigView;

    open spec fn view(&self) -> McpConfigView {
        McpConfigView {
            docker_image: opt_view(self.docker_image),
            binary_path: opt_view(self.binary_path),
            http_url: opt_view(self.http_url),
            command: opt_view(self.command),
            args: str_views(self.args@),
            env_vars: env_views(self.env_vars@),
        }
    }
}

/// Clones an optional string, preserving its view.
pub fn clone_opt_string(o: &Option<String>) -> (r: Option<String>)
    ensures
        opt_view(r) == opt_view(*o),
{
    match o {
        Some(s) => Some(s.clone()),
        None => None,
    }
}

/// Clones a vector of strings, preserving its views.
pub fn clone_string_vec(v: &Vec<String>) -> (r: Vec<String>)
    ensures
        str_views(r@) == str_views(v@),
{
    let mut out: Vec<String> = Vec::new();
    let n: usize = v.len();
    let mut i: usize = 0;
    while i < n
        invariant
            n == v@.len(),
            0 <= i <= n,
            str_views(out@) =~= str_views(v@).take(i as int),
        decreases n - i,
    {
        out.push(v[i].clone());
        assert(str_views(out@) =~= str_views(v@).take(i + 1)) by {
            assert(str_views(v@).take(i + 1) =~= str_views(v@).take(i as int).push(
                str_views(v@)[i as int],
            ));
        }
        i += 1;
    }
    assert(str_views(v@).take(n as int) =~= str_views(v@));
    out
}

/// Clones a vector of environment entries, preserving its views.
pub fn clone_env_vec(v: &Vec<EnvVar>) -> (r: Vec<EnvVar>)
    ensures
        env_views(r@) == env_views(v@),
{
    let mut out: Vec<EnvVar> = Vec::new();
    let n: usize = v.len();
    let mut i: usize = 0;
    while i < n
        invariant
            n == v@.len(),
            0 <= i <= n,
            env_views(out@) =~= env_views(v@).take(i as int),
        decreases n - i,
    {
        out.push(v[i].clone());
        assert(env_views(out@) =~= env_views(v@).take(i + 1)) by {
            assert(env_views(v@).take(i + 1) =~= env_views(v@).take(i as int).push(
                env_views(v@)[i as int],
            ));
        }
        i += 1;
    }
    assert(env_views(v@).take(n as int) =~= env_views(v@));
    out
}

impl Clone for McpConfig {
    fn clone(&self) -> (r: Self)
        ensures
            r@ == self@,
    {
        McpConfig {
            docker_image: clone_opt_string(&self.docker_image),
            binary_path: clone_opt_string(&self.binary_path),
            http_url: clone_opt_string(&self.http_url),
            command: clone_opt_string(&self.command),
            args: clone_string_vec(&self.args),
            env_vars: clone_env_vec(&self.env_vars),
        }
    }
}

/// A provider record: one configured tool-serving backend.
#[derive(Debug)]
pub struct Mcp {
    pub id: String,
    pub name: String,
    pub mcp_type: McpType,
    pub config: McpConfig,
    pub created_at: String,
}

/// Mathematical view of an [`Mcp`].
pub struct McpView {
    pub id: Seq<char>,
    pub name: Seq<char>,
    pub mcp_type: McpType,
    pub config: McpConfigView,
    pub created_at: Seq<char>,
}

impl View for Mcp {
    type V = McpView;

    open spec fn view(&self) -> McpView {
        McpView {
            id: self.id@,
            name: self.name@,
            mcp_type: self.mcp_type,
            config: self.config@,
            created_at: self.created_at@,
        }
    }
}

/// The views of a sequence of providers, element by element.
pub open spec fn mcp_views(s: Seq<Mcp>) -> Seq<McpView> {
    s.map_values(|m: Mcp| m@)
}

impl Clone for Mcp {
    fn clone(&self) -> (r: Self)
        ensures
            r@ == self@,
    {
        Mcp {
            id: self.id.clone(),
            name: self.name.clone(),
            mcp_type: self.mcp_type,
            config: self.config.clone(),
            created_at: self.created_at.clone(),
        }
    }
}

/// A project record.
#[derive(Debug)]
pub struct Project {
    pub id: String,
    pub name: String,
    pub path: String,
    pub created_at: String,
}

/// Mathematical view of a [`Project`].
pub struct ProjectView {
    pub id: Seq<char>,
    pub name: Seq<char>,
    pub path: Seq<char>,
    pub created_at: Seq<char>,
}

impl View for Project {
    type V = ProjectView;

    open spec fn view(&self) -> ProjectView {
        ProjectView {
            id: self.id@,
            name: self.name@,
            path: self.path@,
            created_at: self.created_at@,
        }
    }
}

/// The association that enables a provider for a project, with override
/// environment entries.
#[derive(Debug)]
pub struct ProjectMcpBinding {
    pub id: String,
    pub project_id: String,
    pub mcp_id: String,
    pub enabled: bool,
    pub overrides: Vec<EnvVar>,
}

/// Mathematical view of a [`ProjectMcpBinding`].
pub struct BindingView {
    pub id: Seq<char>,
    pub project_id: Seq<char>,
    pub mcp_id: Seq<char>,
    pub enabled: bool,
    pub overrides: Seq<EnvVarView>,
}

impl View for ProjectMcpBinding {
    type V = BindingView;

    open spec fn view(&self) -> BindingView {
        BindingView {
            id: self.id@,
            project_id: self.project_id@,
            mcp_id: self.mcp_id@,
            enabled: self.enabled,
            overrides: env_views(self.overrides@),
        }
    }
}

/// The views of a sequence of bindings, element by element.
pub open spec fn binding_views(s: Seq<ProjectMcpBinding>) -> Seq<BindingView> {
    s.map_values(|b: ProjectMcpBinding| b@)
}

impl Clone for ProjectMcpBinding {
    fn clone(&self) -> (r: Self)
        ensures
            r@ == self@,
    {
        ProjectMcpBinding {
            id: self.id.clone(),
            project_id: self.project_id.clone(),
            mcp_id: self.mcp_id.clone(),
            enabled: self.enabled,
            overrides: clone_env_vec(&self.overrides),
        }
    }
}

/// A secret record as listed to clients: the encrypted value itself stays in
/// the store.
#[derive(Debug)]
pub struct Secret {
    pub id: String,
    pub key: String,
    pub created_at: String,
}

/// One audit-log row per tool-call attempt.
#[derive(Debug)]
pub struct RouterLog {
    pub id: String,
    pub timestamp: String,
    pub project_id: String,
    pub mcp_id: String,
    pub tool_name: String,
    pub status: String,
    pub duration_ms: i64,
    pub error: Option<String>,
}

/// One provider entry of a third-party tool-manifest document.
#[derive(Debug)]
pub struct McpServerConfig {
    pub command: String,
    pub args: Vec<String>,
    pub env: Vec<(String, String)>,
}

/// Mathematical view of an [`McpServerConfig`].
pub struct McpServerConfigView {
    pub command: Seq<char>,
    pub args: Seq<Seq<char>>,
    pub env: Seq<(Seq<char>, Seq<char>)>,
}

/// The views of a sequence of string pairs, element by element.
pub open spec fn pair_views(s: Seq<(String, String)>) -> Seq<(Seq<char>, Seq<char>)> {
    s.map_values(|p: (String, String)| (p.0@, p.1@))
}

impl View for McpServerConfig {
    type V = McpServerConfigView;

    open spec fn view(&self) -> McpServerConfigView {
        McpServerConfigView {
            command: self.command@,
            args: str_views(self.args@),
            env: pair_views(self.env@),
        }
    }
}

impl Clone for McpServerConfig {
    fn clone(&self) -> (r: Self)
        ensures
            r@ == self@,
    {
        let mut env: Vec<(String, String)> = Vec::new();
        let n: usize = self.env.len();
        let mut i: usize = 0;
        while i < n
            invariant
                n == self.env@.len(),
                0 <= i <= n,
                pair_views(env@) =~= pair_views(self.env@).take(i as int),
            decreases n - i,
        {
            env.push((self.env[i].0.clone(), self.env[i].1.clone()));
            assert(pair_views(env@) =~= pair_views(self.env@).take(i + 1)) by {
                assert(pair_views(self.env@).take(i + 1) =~= pair_views(self.env@).take(
                    i as int,
                ).push(pair_views(self.env@)[i as int]));
            }
            i += 1;
        }
        assert(pair_views(self.env@).take(n as int) =~= pair_views(self.env@));
        McpServerConfig {
            command: self.command.clone(),
            args: clone_string_vec(&self.args),
            env,
        }
    }
}

/// A decoded third-party tool-manifest document, in its written order.
#[derive(Debug)]
pub struct McpServersWrapper {
    pub mcp_servers: Vec<(String, McpServerConfig)>,
}

/// What an import would create, shown before it happens.
#[derive(Debug)]
pub struct ImportPreview {
    pub name: String,
    pub mcp_type: McpType,
    pub command: Option<String>,
    pub args: Vec<String>,
}

} // verus!
