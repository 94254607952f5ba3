//! The gateway: the active-project register, tool discovery, invocation
//! routing with secret resolution, and the audit record of each call.
use vstd::prelude::*;
use vstd::string::StringExecFns;
use crate::models::{EnvVar, EnvVarView, Mcp, McpView, ProjectMcpBinding, BindingView, RouterLog,
    env_views, mcp_views, binding_views, opt_view};
use crate::resolver::{merge_env, resolve_environment};
use crate::strutil::{prefix_before, split_before};
use crate::vault::{SecretManager, decrypt_spec};
use crate::ids::{new_uuid, now_rfc3339};

verus! {

/// Why the gateway refused a request before dispatch.
#[derive(Clone, Copy, PartialEq, Eq, Structural, Debug)]
pub enum GatewayError {
    /// No active project is set.
    BadRequest,
    /// No provider matches the tool name's token.
    McpNotFound,
    /// The active project has no binding to the matched provider.
    BindingNotFound,
}

impl GatewayError {
    /// The message text of the error.
    pub open spec fn message_text(self) -> Seq<char> {
        match self {
            GatewayError::BadRequest => "No project set"@,
            GatewayError::McpNotFound => "MCP not found"@,
            GatewayError::BindingNotFound => "Binding not found"@,
        }
    }

    /// The HTTP status the error maps to.
    pub fn status_code(&self) -> (r: u16)
        ensures
            r == (match self {
                GatewayError::BadRequest => 400u16,
                GatewayError::McpNotFound => 404u16,
                GatewayError::BindingNotFound => 404u16,
            }),
    {
        match self {
            GatewayError::BadRequest => 400,
            GatewayError::McpNotFound => 404,
            GatewayError::BindingNotFound => 404,
        }
    }

    /// The error's message, as clients see it.
    pub fn message(&self) -> (r: String)
        ensures
            r@ == self.message_text(),
    {
        match self {
            GatewayError::BadRequest => String::from_str("No project set"),
            GatewayError::McpNotFound => String::from_str("MCP not found"),
            GatewayError::BindingNotFound => String::from_str("Binding not found"),
        }
    }
}

/// The single-slot active-project register: holds at most one project
/// identifier, initially empty, overwritten unconditionally on selection.
pub struct ActiveProjectRegister {
    current: Option<String>,
}

impl ActiveProjectRegister {
    /// The project identifier currently selected, if any.
    pub closed spec fn current_view(&self) -> Option<Seq<char>> {
        opt_view(self.current)
    }

    /// A fresh register: no project selected.
    pub fn new() -> (r: ActiveProjectRegister)
        ensures
            r.current_view() is None,
    {
        ActiveProjectRegister { current: None }
    }

    /// Selects a project, overwriting any previous selection; never fails
    /// and does not check that the project exists.
    pub fn set(&mut self, project_id: String)
        ensures
            final(self).current_view() == Some(project_id@),
    {
        self.current = Some(project_id);
    }

    /// The current selection, as a value.
    pub fn get(&self) -> (r: Option<String>)
        ensures
            opt_view(r) == self.current_view(),
    {
        match &self.current {
            Some(p) => Some(p.clone()),
            None => None,
        }
    }
}

/// A tool descriptor as listed to clients.
#[derive(Debug)]
pub struct ToolInfo {
    pub name: String,
    pub description: String,
    pub mcp_id: String,
    pub mcp_name: String,
}

/// Mathematical view of a [`ToolInfo`].
pub struct ToolInfoView {
    pub name: Seq<char>,
    pub description: Seq<char>,
    pub mcp_id: Seq<char>,
    pub mcp_name: Seq<char>,
}

impl View for ToolInfo {
    type V = ToolInfoView;

    open spec fn view(&self) -> ToolInfoView {
        ToolInfoView {
            name: self.name@,
            description: self.description@,
            mcp_id: self.mcp_id@,
            mcp_name: self.mcp_name@,
        }
    }
}

/// The views of a sequence of tool descriptors, element by element.
pub open spec fn tool_views(s: Seq<ToolInfo>) -> Seq<ToolInfoView> {
    s.map_values(|t: ToolInfo| t@)
}

/// The descriptor a provider is listed under.
pub open spec fn descriptor_of(m: McpView) -> ToolInfoView {
    ToolInfoView {
        name: m.name + "__execute"@,
        description: "Execute tool from MCP: "@ + m.name,
        mcp_id: m.id,
        mcp_name: m.name,
    }
}

/// Some provider has identifier `id`.
pub open spec fn has_mcp_id(mcps: Seq<McpView>, id: Seq<char>) -> bool {
    exists|i: int| 0 <= i < mcps.len() && mcps[i].id == id
}

/// The least index of a provider with identifier `id`.
pub open spec fn first_mcp_index(mcps: Seq<McpView>, id: Seq<char>) -> int {
    choose|i: int|
        0 <= i < mcps.len() && mcps[i].id == id && (forall|k: int|
            0 <= k < i ==> mcps[k].id != id)
}

proof fn least_mcp_witness(mcps: Seq<McpView>, id: Seq<char>, w: int)
    requires
        0 <= w < mcps.len(),
        mcps[w].id == id,
    ensures
        0 <= first_mcp_index(mcps, id) < mcps.len(),
        mcps[first_mcp_index(mcps, id)].id == id,
        forall|k: int| 0 <= k < first_mcp_index(mcps, id) ==> mcps[k].id != id,
    decreases w,
{
    if forall|k: int| 0 <= k < w ==> mcps[k].id != id {
        let c = first_mcp_index(mcps, id);
        assert(0 <= c < mcps.len() && mcps[c].id == id && (forall|k: int|
            0 <= k < c ==> mcps[k].id != id)) by {
            assert(0 <= w < mcps.len() && mcps[w].id == id && (forall|k: int|
                0 <= k < w ==> mcps[k].id != id));
        }
    } else {
        let w2 = choose|k: int| 0 <= k < w && mcps[k].id == id;
        least_mcp_witness(mcps, id, w2);
    }
}

pub(crate) fn find_mcp_by_id(mcps: &Vec<Mcp>, id: &String) -> (r: Option<usize>)
    ensures
        match r {
            Some(i) => 0 <= i < mcps@.len() && has_mcp_id(mcp_views(mcps@), id@) && i as int
                == first_mcp_index(mcp_views(mcps@), id@) && mcp_views(mcps@)[i as int].id == id@,
            None => !has_mcp_id(mcp_views(mcps@), id@),
        },
{
    let ghost mv = mcp_views(mcps@);
    let n: usize = mcps.len();
    let mut i: usize = 0;
    while i < n
        invariant
            n == mcps@.len(),
            mv == mcp_views(mcps@),
            0 <= i <= n,
            forall|k: int| 0 <= k < i ==> mv[k].id != id@,
        decreases n - i,
    {
        if mcps[i].id == *id {
            proof {
                assert(mv[i as int].id == id@);
                least_mcp_witness(mv, id@, i as int);
            }
            return Some(i);
        }
        assert(mv[i as int].id != id@);
        i += 1;
    }
    None
}

/// The tool list a binding set and provider set give rise to: one descriptor
/// per enabled binding whose provider record still exists, in binding order,
/// under the first provider carrying the bound identifier.
pub open spec fn tool_list(bindings: Seq<BindingView>, mcps: Seq<McpView>) -> Seq<ToolInfoView>
    decreases bindings.len(),
{
    if bindings.len() == 0 {
        Seq::empty()
    } else {
        let rest = tool_list(bindings.drop_last(), mcps);
        let b = bindings.last();
        if b.enabled && has_mcp_id(mcps, b.mcp_id) {
            rest.push(descriptor_of(mcps[first_mcp_index(mcps, b.mcp_id)]))
        } else {
            rest
        }
    }
}

/// Every listed descriptor stems from an enabled binding whose provider
/// still exists: disabled bindings and bindings to deleted providers
/// contribute nothing to the listing.
pub proof fn lemma_tool_list_excludes(bindings: Seq<BindingView>, mcps: Seq<McpView>, t: int)
    requires
        0 <= t < tool_list(bindings, mcps).len(),
    ensures
        exists|j: int|
            #![trigger bindings[j]]
            0 <= j < bindings.len() && bindings[j].enabled && has_mcp_id(mcps, bindings[j].mcp_id)
                && tool_list(bindings, mcps)[t] == descriptor_of(
                mcps[first_mcp_index(mcps, bindings[j].mcp_id)],
            ),
    decreases bindings.len(),
{
    let full = tool_list(bindings, mcps);
    let rest = tool_list(bindings.drop_last(), mcps);
    let b = bindings.last();
    if b.enabled && has_mcp_id(mcps, b.mcp_id) && t == rest.len() {
        let j = bindings.len() - 1;
        assert(bindings[j] == b);
        assert(0 <= j < bindings.len() && bindings[j].enabled && has_mcp_id(
            mcps,
            bindings[j].mcp_id,
        ) && full[t] == descriptor_of(mcps[first_mcp_index(mcps, bindings[j].mcp_id)]));
    } else {
        lemma_tool_list_excludes(bindings.drop_last(), mcps, t);
        let j = choose|j: int|
            #![trigger bindings.drop_last()[j]]
            0 <= j < bindings.drop_last().len() && bindings.drop_last()[j].enabled && has_mcp_id(
                mcps,
                bindings.drop_last()[j].mcp_id,
            ) && rest[t] == descriptor_of(
                mcps[first_mcp_index(mcps, bindings.drop_last()[j].mcp_id)],
            );
        assert(bindings[j] == bindings.drop_last()[j]);
        assert(full[t] == rest[t]);
        assert(0 <= j < bindings.len() && bindings[j].enabled && has_mcp_id(
            mcps,
            bindings[j].mcp_id,
        ) && full[t] == descriptor_of(mcps[first_mcp_index(mcps, bindings[j].mcp_id)]));
    }
}

/// Lists the tools of the active project: fails with `BadRequest` when no
/// project is selected, and otherwise joins the enabled bindings against the
/// provider records, dropping bindings whose provider is missing, as
/// [`tool_list`] describes.
#[verifier::rlimit(60)]
pub fn list_tools(active: &Option<String>, bindings: &Vec<ProjectMcpBinding>, mcps: &Vec<Mcp>) -> (r:
    Result<Vec<ToolInfo>, GatewayError>)
    ensures
        (active is None) == (r == Err::<Vec<ToolInfo>, GatewayError>(GatewayError::BadRequest)),
        active is Some ==> (r matches Ok(ts) && tool_views(ts@) == tool_list(
            binding_views(bindings@),
            mcp_views(mcps@),
        )),
{
    if active.is_none() {
        return Err(GatewayError::BadRequest);
    }
    let ghost bv = binding_views(bindings@);
    let ghost mv = mcp_views(mcps@);
    let mut tools: Vec<ToolInfo> = Vec::new();
    let n: usize = bindings.len();
    let mut i: usize = 0;
    while i < n
        invariant
            n == bindings@.len(),
            bv == binding_views(bindings@),
            mv == mcp_views(mcps@),
            0 <= i <= n,
            tool_views(tools@) =~= tool_list(bv.take(i as int), mv),
        decreases n - i,
    {
        proof {
            assert(bv.take(i + 1).drop_last() =~= bv.take(i as int));
            assert(bv.take(i + 1).last() == bv[i as int]);
        }
        let ghost pre = tools@;
        if bindings[i].enabled {
            match find_mcp_by_id(mcps, &bindings[i].mcp_id) {
                Some(mi) => {
                    let name = mcps[mi].name.clone().concat("__execute");
                    let description = String::from_str("Execute tool from MCP: ").concat(
                        mcps[mi].name.as_str(),
                    );
                    let info = ToolInfo {
                        name,
                        description,
                        mcp_id: mcps[mi].id.clone(),
                        mcp_name: mcps[mi].name.clone(),
                    };
                    proof {
                        assert(info@ == descriptor_of(
                            mv[first_mcp_index(mv, bv[i as int].mcp_id)],
                        ));
                        assert(tool_list(bv.take(i + 1), mv) == tool_list(bv.take(i as int), mv)
                            .push(descriptor_of(mv[first_mcp_index(mv, bv[i as int].mcp_id)])));
                    }
                    tools.push(info);
                    assert(tool_views(tools@) =~= tool_views(pre).push(info@));
                },
                None => {
                    proof {
                        assert(tool_list(bv.take(i + 1), mv) == tool_list(bv.take(i as int), mv));
                    }
                },
            }
        } else {
            proof {
                assert(!bv[i as int].enabled);
                assert(tool_list(bv.take(i + 1), mv) == tool_list(bv.take(i as int), mv));
            }
        }
        assert(tool_views(tools@) =~= tool_list(bv.take(i + 1), mv));
        i += 1;
    }
    assert(bv.take(n as int) =~= bv);
    Ok(tools)
}

/// A provider matches the token when its identifier or its name equals it.
pub open spec fn matches_token(m: McpView, tok: Seq<char>) -> bool {
    m.name == tok || m.id == tok
}

/// Some provider matches the token.
pub open spec fn has_token_match(mcps: Seq<McpView>, tok: Seq<char>) -> bool {
    exists|i: int| 0 <= i < mcps.len() && matches_token(mcps[i], tok)
}

/// The least index of a provider matching the token: the first one in
/// enumeration order wins when identifiers and names collide.
pub open spec fn first_token_match(mcps: Seq<McpView>, tok: Seq<char>) -> int {
    choose|i: int|
        0 <= i < mcps.len() && matches_token(mcps[i], tok) && (forall|k: int|
            0 <= k < i ==> !matches_token(mcps[k], tok))
}

proof fn least_token_witness(mcps: Seq<McpView>, tok: Seq<char>, w: int)
    requires
        0 <= w < mcps.len(),
        matches_token(mcps[w], tok),
    ensures
        0 <= first_token_match(mcps, tok) < mcps.len(),
        matches_token(mcps[first_token_match(mcps, tok)], tok),
        forall|k: int| 0 <= k < first_token_match(mcps, tok) ==> !matches_token(mcps[k], tok),
    decreases w,
{
    if forall|k: int| 0 <= k < w ==> !matches_token(mcps[k], tok) {
        let c = first_token_match(mcps, tok);
        assert(0 <= c < mcps.len() && matches_token(mcps[c], tok) && (forall|k: int|
            0 <= k < c ==> !matches_token(mcps[k], tok))) by {
            assert(0 <= w < mcps.len() && matches_token(mcps[w], tok) && (forall|k: int|
                0 <= k < w ==> !matches_token(mcps[k], tok)));
        }
    } else {
        let w2 = choose|k: int| 0 <= k < w && matches_token(mcps[k], tok);
        least_token_witness(mcps, tok, w2);
    }
}

fn find_mcp_by_token(mcps: &Vec<Mcp>, tok: &String) -> (r: Option<usize>)
    ensures
        match r {
            Some(i) => 0 <= i < mcps@.len() && has_token_match(mcp_views(mcps@), tok@) && i as int
                == first_token_match(mcp_views(mcps@), tok@) && matches_token(
                mcp_views(mcps@)[i as int],
                tok@,
            ),
            None => !has_token_match(mcp_views(mcps@), tok@),
        },
{
    let ghost mv = mcp_views(mcps@);
    let n: usize = mcps.len();
    let mut i: usize = 0;
    while i < n
        invariant
            n == mcps@.len(),
            mv == mcp_views(mcps@),
            0 <= i <= n,
            forall|k: int| 0 <= k < i ==> !matches_token(mv[k], tok@),
        decreases n - i,
    {
        if mcps[i].name == *tok || mcps[i].id == *tok {
            proof {
                assert(matches_token(mv[i as int], tok@));
                least_token_witness(mv, tok@, i as int);
            }
            return Some(i);
        }
        assert(!matches_token(mv[i as int], tok@));
        i += 1;
    }
    None
}

/// Some binding binds the provider with this identifier.
pub open spec fn has_binding_for(bindings: Seq<BindingView>, mcp_id: Seq<char>) -> bool {
    exists|i: int| 0 <= i < bindings.len() && bindings[i].mcp_id == mcp_id
}

/// The least index of a binding to the provider with this identifier.
pub open spec fn first_binding_index(bindings: Seq<BindingView>, mcp_id: Seq<char>) -> int {
    choose|i: int|
        0 <= i < bindings.len() && bindings[i].mcp_id == mcp_id && (forall|k: int|
            0 <= k < i ==> bindings[k].mcp_id != mcp_id)
}

proof fn least_binding_witness(bindings: Seq<BindingView>, mcp_id: Seq<char>, w: int)
    requires
        0 <= w < bindings.len(),
        bindings[w].mcp_id == mcp_id,
    ensures
        0 <= first_binding_index(bindings, mcp_id) < bindings.len(),
        bindings[first_binding_index(bindings, mcp_id)].mcp_id == mcp_id,
        forall|k: int|
            0 <= k < first_binding_index(bindings, mcp_id) ==> bindings[k].mcp_id != mcp_id,
    decreases w,
{
    if forall|k: int| 0 <= k < w ==> bindings[k].mcp_id != mcp_id {
        let c = first_binding_index(bindings, mcp_id);
        assert(0 <= c < bindings.len() && bindings[c].mcp_id == mcp_id && (forall|k: int|
            0 <= k < c ==> bindings[k].mcp_id != mcp_id)) by {
            assert(0 <= w < bindings.len() && bindings[w].mcp_id == mcp_id && (forall|k: int|
                0 <= k < w ==> bindings[k].mcp_id != mcp_id));
        }
    } else {
        let w2 = choose|k: int| 0 <= k < w && bindings[k].mcp_id == mcp_id;
        least_binding_witness(bindings, mcp_id, w2);
    }
}

pub(crate) fn find_binding_for(bindings: &Vec<ProjectMcpBinding>, mcp_id: &String) -> (r: Option<usize>)
    ensures
        match r {
            Some(i) => 0 <= i < bindings@.len() && has_binding_for(
                binding_views(bindings@),
                mcp_id@,
            ) && i as int == first_binding_index(binding_views(bindings@), mcp_id@)
                && binding_views(bindings@)[i as int].mcp_id == mcp_id@,
            None => !has_binding_for(binding_views(bindings@), mcp_id@),
        },
{
    let ghost bv = binding_views(bindings@);
    let n: usize = bindings.len();
    let mut i: usize = 0;
    while i < n
        invariant
            n == bindings@.len(),
            bv == binding_views(bindings@),
            0 <= i <= n,
            forall|k: int| 0 <= k < i ==> bv[k].mcp_id != mcp_id@,
        decreases n - i,
    {
        if bindings[i].mcp_id == *mcp_id {
            proof {
                assert(bv[i as int].mcp_id == mcp_id@);
                least_binding_witness(bv, mcp_id@, i as int);
            }
            return Some(i);
        }
        assert(bv[i as int].mcp_id != mcp_id@);
        i += 1;
    }
    None
}

/// Routes one invocation: fails with `BadRequest` when no project is
/// selected, whatever the tool name; otherwise matches the token before the
/// first `__` against provider identifiers and names (first match wins),
/// requires a binding of the project to the matched provider, and yields the
/// provider's index with the merged environment of §[`merge_env`].
pub fn route_invoke(
    active: &Option<String>,
    tool_name: &String,
    mcps: &Vec<Mcp>,
    bindings: &Vec<ProjectMcpBinding>,
) -> (r: Result<(usize, Vec<EnvVar>), GatewayError>)
    ensures
        (active is None) == (r == Err::<(usize, Vec<EnvVar>), GatewayError>(
            GatewayError::BadRequest,
        )),
        active is Some && !has_token_match(mcp_views(mcps@), prefix_before(tool_name@, "__"@)) ==> r
            == Err::<(usize, Vec<EnvVar>), GatewayError>(GatewayError::McpNotFound),
        active is Some && has_token_match(mcp_views(mcps@), prefix_before(tool_name@, "__"@)) && !has_binding_for(
            binding_views(bindings@),
            mcp_views(mcps@)[first_token_match(
                mcp_views(mcps@),
                prefix_before(tool_name@, "__"@),
            )].id,
        ) ==> r == Err::<(usize, Vec<EnvVar>), GatewayError>(GatewayError::BindingNotFound),
        active is Some && has_token_match(mcp_views(mcps@), prefix_before(tool_name@, "__"@))
            && has_binding_for(
            binding_views(bindings@),
            mcp_views(mcps@)[first_token_match(
                mcp_views(mcps@),
                prefix_before(tool_name@, "__"@),
            )].id,
        ) ==> r is Ok,
        r matches Ok(p) ==> active is Some && has_token_match(
            mcp_views(mcps@),
            prefix_before(tool_name@, "__"@),
        ) && p.0 as int == first_token_match(mcp_views(mcps@), prefix_before(tool_name@, "__"@))
            && has_binding_for(binding_views(bindings@), mcp_views(mcps@)[p.0 as int].id)
            && env_views(p.1@) == merge_env(
            mcp_views(mcps@)[p.0 as int].config.env_vars,
            binding_views(bindings@)[first_binding_index(
                binding_views(bindings@),
                mcp_views(mcps@)[p.0 as int].id,
            )].overrides,
        ),
{
    if active.is_none() {
        return Err(GatewayError::BadRequest);
    }
    let token = split_before(tool_name.as_str(), "__");
    let mi = match find_mcp_by_token(mcps, &token) {
        Some(mi) => mi,
        None => {
            return Err(GatewayError::McpNotFound);
        },
    };
    let bi = match find_binding_for(bindings, &mcps[mi].id) {
        Some(bi) => bi,
        None => {
            return Err(GatewayError::BindingNotFound);
        },
    };
    let env = resolve_environment(&mcps[mi].config.env_vars, &bindings[bi].overrides);
    Ok((mi, env))
}

/// What a secret entry's value resolves to: when the entry is flagged secret
/// and a stored blob was found and decrypts under the vault key, the
/// decrypted text; in every other case the value stands unchanged.
pub open spec fn resolved_value(key: Seq<u8>, e: EnvVarView, fetched: Option<Seq<char>>) -> Seq<
    char,
> {
    if e.is_secret {
        match fetched {
            Some(enc) => match decrypt_spec(key, enc) {
                Some(pt) => pt,
                None => e.value,
            },
            None => e.value,
        }
    } else {
        e.value
    }
}

/// The view of a sequence of optional strings, element by element.
pub open spec fn opt_str_views(s: Seq<Option<String>>) -> Seq<Option<Seq<char>>> {
    s.map_values(|o: Option<String>| opt_view(o))
}

/// Replaces each secret-flagged entry's value by the decrypted text of its
/// fetched blob, where one was found and decrypts; a missing record or a
/// failing decryption leaves the entry unchanged and surfaces no error.
/// Keys and secret flags never change.
pub fn apply_secrets(vault: &SecretManager, env: &mut Vec<EnvVar>, fetched: &Vec<Option<String>>)
    requires
        vault.wf(),
        old(env)@.len() == fetched@.len(),
    ensures
        final(env)@.len() == old(env)@.len(),
        forall|i: int|
            0 <= i < old(env)@.len() ==> #[trigger] env_views(final(env)@)[i] == (EnvVarView {
                key: env_views(old(env)@)[i].key,
                value: resolved_value(
                    vault.key_view(),
                    env_views(old(env)@)[i],
                    opt_str_views(fetched@)[i],
                ),
                is_secret: env_views(old(env)@)[i].is_secret,
            }),
{
    let ghost orig = env@;
    let n: usize = env.len();
    let mut i: usize = 0;
    while i < n
        invariant
            vault.wf(),
            n == env@.len(),
            n == orig.len(),
            n == fetched@.len(),
            0 <= i <= n,
            forall|k: int| i <= k < n ==> env@[k] == orig[k],
            forall|k: int|
                0 <= k < i ==> #[trigger] env_views(env@)[k] == (EnvVarView {
                    key: env_views(orig)[k].key,
                    value: resolved_value(
                        vault.key_view(),
                        env_views(orig)[k],
                        opt_str_views(fetched@)[k],
                    ),
                    is_secret: env_views(orig)[k].is_secret,
                }),
        decreases n - i,
    {
        let ghost pre = env@;
        if env[i].is_secret {
            match &fetched[i] {
                Some(enc) => {
                    match vault.decrypt(enc.as_str()) {
                        Ok(pt) => {
                            let key = env[i].key.clone();
                            let flag = env[i].is_secret;
                            env[i] = EnvVar { key, value: pt, is_secret: flag };
                        },
                        Err(_) => {
                        },
                    }
                },
                None => {
                },
            }
        }
        proof {
            assert(env_views(env@)[i as int] == (EnvVarView {
                key: env_views(orig)[i as int].key,
                value: resolved_value(
                    vault.key_view(),
                    env_views(orig)[i as int],
                    opt_str_views(fetched@)[i as int],
                ),
                is_secret: env_views(orig)[i as int].is_secret,
            }));
            assert forall|k: int| 0 <= k < i implies #[trigger] env_views(env@)[k] == (EnvVarView {
                key: env_views(orig)[k].key,
                value: resolved_value(
                    vault.key_view(),
                    env_views(orig)[k],
                    opt_str_views(fetched@)[k],
                ),
                is_secret: env_views(orig)[k].is_secret,
            }) by {
                assert(env@[k] == pre[k]);
                assert(env_views(pre)[k] == (EnvVarView {
                    key: env_views(orig)[k].key,
                    value: resolved_value(
                        vault.key_view(),
                        env_views(orig)[k],
                        opt_str_views(fetched@)[k],
                    ),
                    is_secret: env_views(orig)[k].is_secret,
                }));
            }
            assert forall|k: int| i + 1 <= k < n implies env@[k] == orig[k] by {
                assert(env@[k] == pre[k]);
            }
        }
        i += 1;
    }
}

/// The response to one tool call.
#[derive(Debug)]
pub struct ToolResponse {
    pub status: u16,
    pub result: String,
    pub error: Option<String>,
}

/// Closes one dispatched invocation: builds the client response and exactly
/// one audit record, whose status matches the outcome and whose duration is
/// never negative.  The record's identifier and timestamp are fresh.
pub fn finish_invoke(
    outcome: Result<String, String>,
    project_id: &String,
    mcp_id: &String,
    tool_name: &String,
    duration_ms: u64,
) -> (r: (ToolResponse, RouterLog))
    ensures
        r.1.project_id@ == project_id@,
        r.1.mcp_id@ == mcp_id@,
        r.1.tool_name@ == tool_name@,
        r.1.duration_ms >= 0,
        duration_ms <= i64::MAX ==> r.1.duration_ms == duration_ms as i64,
        outcome matches Ok(v) ==> (r.0.status == 200 && r.0.result@ == v@ && r.0.error is None
            && r.1.status@ == "success"@ && r.1.error is None),
        outcome matches Err(e) ==> (r.0.status == 500 && r.0.result@ == "{}"@ && (r.0.error
            matches Some(re) && re@ == e@) && r.1.status@ == "error"@ && (r.1.error matches Some(
            le,
        ) && le@ == e@)),
{
    let duration: i64 = if duration_ms > i64::MAX as u64 {
        i64::MAX
    } else {
        duration_ms as i64
    };
    let id = new_uuid();
    let timestamp = now_rfc3339();
    match outcome {
        Ok(v) => {
            let log = RouterLog {
                id,
                timestamp,
                project_id: project_id.clone(),
                mcp_id: mcp_id.clone(),
                tool_name: tool_name.clone(),
                status: String::from_str("success"),
                duration_ms: duration,
                error: None,
            };
            (ToolResponse { status: 200, result: v, error: None }, log)
        },
        Err(e) => {
            let log = RouterLog {
                id,
                timestamp,
                project_id: project_id.clone(),
                mcp_id: mcp_id.clone(),
                tool_name: tool_name.clone(),
                status: String::from_str("error"),
                duration_ms: duration,
                error: Some(e.clone()),
            };
            (ToolResponse { status: 500, result: String::from_str("{}"), error: Some(e) }, log)
        },
    }
}

} // verus!
