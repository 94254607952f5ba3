//! Execution dispatch: turns a provider, its resolved environment and the
//! call payload into a concrete transport plan, and normalizes what came
//! back from the transport.
use vstd::prelude::*;
use vstd::string::{StrSliceExecFns, StringExecFns};
use crate::models::{EnvVar, EnvVarView, Mcp, McpView, McpType, env_views, str_views, pair_views, clone_env_vec};
use crate::strutil::{has_prefix_ci, has_prefix_str_ci};
use crate::jsontext::{json_ok, is_valid_json, wrap_output_text, wrap_raw_output};

verus! {

/// The `-e KEY=VALUE` flag pairs for a container run, one pair per resolved
/// entry, in environment order.
pub open spec fn env_flag_args(env: Seq<EnvVarView>) -> Seq<Seq<char>>
    decreases env.len(),
{
    if env.len() == 0 {
        Seq::empty()
    } else {
        env_flag_args(env.drop_last()) + seq![
            "-e"@,
            env.last().key + "="@ + env.last().value,
        ]
    }
}

/// The argument list of a container run: a self-removing run of the image
/// with every entry passed as an `-e` flag and the payload trailing.
pub open spec fn docker_run_args(image: Seq<char>, env: Seq<EnvVarView>, payload: Seq<char>) -> Seq<
    Seq<char>,
> {
    seq!["run"@, "--rm"@] + env_flag_args(env) + seq![image, payload]
}

/// The HTTP headers drawn from the environment: entries whose key has the
/// case-insensitive prefix `header_` become a header named by the rest of
/// the key; other entries are not transmitted.
pub open spec fn header_pairs(env: Seq<EnvVarView>) -> Seq<(Seq<char>, Seq<char>)>
    decreases env.len(),
{
    if env.len() == 0 {
        Seq::empty()
    } else {
        let rest = header_pairs(env.drop_last());
        if has_prefix_ci(env.last().key, "header_"@) {
            rest.push((env.last().key.skip(7), env.last().value))
        } else {
            rest
        }
    }
}

/// A concrete transport plan, ready for an unverified runner to perform.
#[derive(Debug)]
pub enum ExecutionPlan {
    /// Run `docker` with these arguments.
    RunContainer { args: Vec<String> },
    /// Spawn the executable at `path` with the entries as process
    /// environment variables and the payload as the single argument.
    RunBinary { path: String, env: Vec<EnvVar>, arg: String },
    /// POST `body` to `url` with these headers.
    HttpPost { url: String, headers: Vec<(String, String)>, body: String },
}

/// Mathematical view of an [`ExecutionPlan`].
pub enum PlanView {
    RunContainer { args: Seq<Seq<char>> },
    RunBinary { path: Seq<char>, env: Seq<EnvVarView>, arg: Seq<char> },
    HttpPost { url: Seq<char>, headers: Seq<(Seq<char>, Seq<char>)>, body: Seq<char> },
}

impl View for ExecutionPlan {
    type V = PlanView;

    open spec fn view(&self) -> PlanView {
        match self {
            ExecutionPlan::RunContainer { args } => PlanView::RunContainer {
                args: str_views(args@),
            },
            ExecutionPlan::RunBinary { path, env, arg } => PlanView::RunBinary {
                path: path@,
                env: env_views(env@),
                arg: arg@,
            },
            ExecutionPlan::HttpPost { url, headers, body } => PlanView::HttpPost {
                url: url@,
                headers: pair_views(headers@),
                body: body@,
            },
        }
    }
}

/// The plan a provider, environment and payload give rise to, or the error
/// when the transport's one required configuration field is missing.
pub open spec fn plan_of(m: McpView, env: Seq<EnvVarView>, payload: Seq<char>) -> Result<
    PlanView,
    Seq<char>,
> {
    match m.mcp_type {
        McpType::Docker => match m.config.docker_image {
            Some(image) => Ok(PlanView::RunContainer { args: docker_run_args(image, env, payload) }),
            None => Err("No docker image specified"@),
        },
        McpType::Binary => match m.config.binary_path {
            Some(path) => Ok(PlanView::RunBinary { path, env, arg: payload }),
            None => Err("No binary path specified"@),
        },
        McpType::Http => match m.config.http_url {
            Some(url) => Ok(PlanView::HttpPost { url, headers: header_pairs(env), body: payload }),
            None => Err("No HTTP URL specified"@),
        },
    }
}

fn build_docker_args(image: &String, env: &Vec<EnvVar>, payload: &String) -> (r: Vec<String>)
    ensures
        str_views(r@) == docker_run_args(image@, env_views(env@), payload@),
{
    let ghost ev = env_views(env@);
    let mut args: Vec<String> = Vec::new();
    args.push(String::from_str("run"));
    args.push(String::from_str("--rm"));
    let n: usize = env.len();
    let mut i: usize = 0;
    while i < n
        invariant
            n == env@.len(),
            ev == env_views(env@),
            0 <= i <= n,
            str_views(args@) =~= seq!["run"@, "--rm"@] + env_flag_args(ev.take(i as int)),
        decreases n - i,
    {
        assert(ev.take(i + 1).drop_last() =~= ev.take(i as int));
        assert(ev.take(i + 1).last() == ev[i as int]);
        let ghost pre = args@;
        args.push(String::from_str("-e"));
        let kv = env[i].key.clone().concat("=").concat(env[i].value.as_str());
        proof {
            reveal_strlit("=");
            assert(kv@ =~= ev[i as int].key + "="@ + ev[i as int].value);
        }
        args.push(kv);
        proof {
            assert(env_flag_args(ev.take(i + 1)) == env_flag_args(ev.take(i as int)) + seq![
                "-e"@,
                ev[i as int].key + "="@ + ev[i as int].value,
            ]);
            assert(str_views(args@) =~= str_views(pre) + seq!["-e"@, kv@]);
        }
        assert(str_views(args@) =~= seq!["run"@, "--rm"@] + env_flag_args(ev.take(i + 1)));
        i += 1;
    }
    assert(ev.take(n as int) =~= ev);
    args.push(image.clone());
    args.push(payload.clone());
    assert(str_views(args@) =~= docker_run_args(image@, ev, payload@));
    args
}

fn build_headers(env: &Vec<EnvVar>) -> (r: Vec<(String, String)>)
    ensures
        pair_views(r@) == header_pairs(env_views(env@)),
{
    let ghost ev = env_views(env@);
    let mut out: Vec<(String, String)> = Vec::new();
    let n: usize = env.len();
    let mut i: usize = 0;
    while i < n
        invariant
            n == env@.len(),
            ev == env_views(env@),
            0 <= i <= n,
            pair_views(out@) =~= header_pairs(ev.take(i as int)),
        decreases n - i,
    {
        assert(ev.take(i + 1).drop_last() =~= ev.take(i as int));
        assert(ev.take(i + 1).last() == ev[i as int]);
        if has_prefix_str_ci(env[i].key.as_str(), "header_") {
            proof {
                reveal_strlit("header_");
            }
            let klen: usize = env[i].key.as_str().unicode_len();
            let name = env[i].key.as_str().substring_char(7, klen).to_owned();
            assert(name@ =~= ev[i as int].key.skip(7));
            out.push((name, env[i].value.clone()));
            assert(pair_views(out@) =~= header_pairs(ev.take(i as int)).push(
                (ev[i as int].key.skip(7), ev[i as int].value),
            ));
        } else {
            proof {
                reveal_strlit("header_");
            }
        }
        assert(pair_views(out@) =~= header_pairs(ev.take(i + 1)));
        i += 1;
    }
    assert(ev.take(n as int) =~= ev);
    out
}

/// Builds the transport plan for one call: branches on the provider's
/// transport kind and fails exactly when the kind's required configuration
/// field is absent, as [`plan_of`] describes.
pub fn plan_execution(mcp: &Mcp, env: &Vec<EnvVar>, payload: &String) -> (r: Result<
    ExecutionPlan,
    String,
>)
    ensures
        (r is Ok) == (plan_of(mcp@, env_views(env@), payload@) is Ok),
        r matches Ok(p) ==> plan_of(mcp@, env_views(env@), payload@) == Ok::<PlanView, Seq<char>>(
            p@,
        ),
        r matches Err(e) ==> plan_of(mcp@, env_views(env@), payload@) == Err::<PlanView, Seq<char>>(
            e@,
        ),
{
    match mcp.mcp_type {
        McpType::Docker => match &mcp.config.docker_image {
            Some(image) => Ok(ExecutionPlan::RunContainer {
                args: build_docker_args(image, env, payload),
            }),
            None => Err(String::from_str("No docker image specified")),
        },
        McpType::Binary => match &mcp.config.binary_path {
            Some(path) => Ok(ExecutionPlan::RunBinary {
                path: path.clone(),
                env: clone_env_vec(env),
                arg: payload.clone(),
            }),
            None => Err(String::from_str("No binary path specified")),
        },
        McpType::Http => match &mcp.config.http_url {
            Some(url) => Ok(ExecutionPlan::HttpPost {
                url: url.clone(),
                headers: build_headers(env),
                body: payload.clone(),
            }),
            None => Err(String::from_str("No HTTP URL specified")),
        },
    }
}

/// Normalizes a finished subprocess transport: a non-zero exit fails with
/// the captured standard error; otherwise standard output is returned as is
/// when it parses as JSON and wrapped as `{"output": ...}` when it does not.
pub fn normalize_subprocess_result(success: bool, stdout: &String, stderr: &String) -> (r: Result<
    String,
    String,
>)
    ensures
        !success ==> (r matches Err(e) && e@ == stderr@),
        success && json_ok(stdout@) ==> (r matches Ok(o) && o@ == stdout@),
        success && !json_ok(stdout@) ==> (r matches Ok(o) && o@ == wrap_output_text(stdout@)),
{
    if !success {
        return Err(stderr.clone());
    }
    if is_valid_json(stdout.as_str()) {
        Ok(stdout.clone())
    } else {
        Ok(wrap_raw_output(stdout.as_str()))
    }
}

/// Normalizes a finished HTTP transport: a non-success status fails with
/// `HTTP error: <status>`, and a body that is not JSON is a hard failure —
/// unlike the subprocess transports, raw text is not wrapped.
pub fn normalize_http_result(success: bool, status: &String, body: &String) -> (r: Result<
    String,
    String,
>)
    ensures
        !success ==> (r matches Err(e) && e@ == "HTTP error: "@ + status@),
        success && json_ok(body@) ==> (r matches Ok(o) && o@ == body@),
        success && !json_ok(body@) ==> (r matches Err(e) && e@ == "Invalid JSON response"@),
{
    if !success {
        return Err(String::from_str("HTTP error: ").concat(status.as_str()));
    }
    if is_valid_json(body.as_str()) {
        Ok(body.clone())
    } else {
        Err(String::from_str("Invalid JSON response"))
    }
}

} // verus!
