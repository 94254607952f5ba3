//! Registry records: building fresh provider, project, binding and secret
//! records, listing the providers a project has enabled, and resolving a
//! provider's configuration for a project.
use vstd::prelude::*;
use crate::models::{EnvVar, Mcp, McpView, McpType, McpConfig, Project, ProjectMcpBinding,
    BindingView, Secret, env_views, mcp_views, binding_views};
use crate::resolver::{merge_env, resolve_environment};
use crate::gateway::{GatewayError, has_mcp_id, first_mcp_index, has_binding_for,
    first_binding_index, find_mcp_by_id, find_binding_for};
use crate::ids::{new_uuid, now_rfc3339};

verus! {

/// Builds a provider record with the given name, transport kind and
/// configuration; the identifier and creation time are fresh.
pub fn create_mcp(name: String, mcp_type: McpType, config: McpConfig) -> (r: Mcp)
    ensures
        r.name@ == name@,
        r.mcp_type == mcp_type,
        r.config@ == config@,
{
    Mcp { id: new_uuid(), name, mcp_type, config, created_at: now_rfc3339() }
}

/// Builds a project record with the given name and path; the identifier and
/// creation time are fresh.
pub fn create_project(name: String, path: String) -> (r: Project)
    ensures
        r.name@ == name@,
        r.path@ == path@,
{
    Project { id: new_uuid(), name, path, created_at: now_rfc3339() }
}

/// Builds the binding that activates a provider for a project: enabled from
/// the start, with the given overrides; the identifier is fresh.
pub fn activate_mcp(project_id: String, mcp_id: String, overrides: Vec<EnvVar>) -> (r:
    ProjectMcpBinding)
    ensures
        r.project_id@ == project_id@,
        r.mcp_id@ == mcp_id@,
        r.enabled == true,
        env_views(r.overrides@) == env_views(overrides@),
{
    ProjectMcpBinding { id: new_uuid(), project_id, mcp_id, enabled: true, overrides }
}

/// Builds the listing record of a stored secret: its lookup key, with a
/// fresh identifier and creation time.
pub fn make_secret(key: String) -> (r: Secret)
    ensures
        r.key@ == key@,
{
    Secret { id: new_uuid(), key, created_at: now_rfc3339() }
}

/// Some enabled binding binds the provider with this identifier.
pub open spec fn is_active(bindings: Seq<BindingView>, mcp_id: Seq<char>) -> bool {
    exists|j: int| 0 <= j < bindings.len() && bindings[j].enabled && bindings[j].mcp_id == mcp_id
}

/// The providers that some enabled binding of the set binds, in provider
/// order.
pub open spec fn active_mcps(bindings: Seq<BindingView>, mcps: Seq<McpView>) -> Seq<McpView>
    decreases mcps.len(),
{
    if mcps.len() == 0 {
        Seq::empty()
    } else {
        let rest = active_mcps(bindings, mcps.drop_last());
        if is_active(bindings, mcps.last().id) {
            rest.push(mcps.last())
        } else {
            rest
        }
    }
}

fn binding_enables(bindings: &Vec<ProjectMcpBinding>, mcp_id: &String) -> (r: bool)
    ensures
        r == is_active(binding_views(bindings@), mcp_id@),
{
    let ghost bv = binding_views(bindings@);
    let n: usize = bindings.len();
    let mut j: usize = 0;
    while j < n
        invariant
            n == bindings@.len(),
            bv == binding_views(bindings@),
            0 <= j <= n,
            forall|k: int| 0 <= k < j ==> !(bv[k].enabled && bv[k].mcp_id == mcp_id@),
        decreases n - j,
    {
        if bindings[j].enabled && bindings[j].mcp_id == *mcp_id {
            assert(bv[j as int].enabled && bv[j as int].mcp_id == mcp_id@);
            return true;
        }
        assert(!(bv[j as int].enabled && bv[j as int].mcp_id == mcp_id@));
        j += 1;
    }
    false
}

/// The providers the binding set enables, in provider order, as
/// [`active_mcps`] describes.
pub fn get_active_mcps_for_project(bindings: &Vec<ProjectMcpBinding>, mcps: &Vec<Mcp>) -> (r: Vec<
    Mcp,
>)
    ensures
        mcp_views(r@) == active_mcps(binding_views(bindings@), mcp_views(mcps@)),
{
    let ghost bv = binding_views(bindings@);
    let ghost mv = mcp_views(mcps@);
    let mut out: Vec<Mcp> = Vec::new();
    let n: usize = mcps.len();
    let mut i: usize = 0;
    while i < n
        invariant
            n == mcps@.len(),
            bv == binding_views(bindings@),
            mv == mcp_views(mcps@),
            0 <= i <= n,
            mcp_views(out@) =~= active_mcps(bv, mv.take(i as int)),
        decreases n - i,
    {
        assert(mv.take(i + 1).drop_last() =~= mv.take(i as int));
        assert(mv.take(i + 1).last() == mv[i as int]);
        if binding_enables(bindings, &mcps[i].id) {
            out.push(mcps[i].clone());
        }
        assert(mcp_views(out@) =~= active_mcps(bv, mv.take(i + 1)));
        i += 1;
    }
    assert(mv.take(n as int) =~= mv);
    out
}

/// The views of a sequence of provider/binding pairs, element by element.
pub open spec fn pair_mb_views(s: Seq<(Mcp, ProjectMcpBinding)>) -> Seq<(McpView, BindingView)> {
    s.map_values(|p: (Mcp, ProjectMcpBinding)| (p.0@, p.1@))
}

/// The pairs one provider forms with its enabled bindings, in binding order.
pub open spec fn pairs_for(m: McpView, bindings: Seq<BindingView>) -> Seq<(McpView, BindingView)>
    decreases bindings.len(),
{
    if bindings.len() == 0 {
        Seq::empty()
    } else {
        let rest = pairs_for(m, bindings.drop_last());
        let b = bindings.last();
        if b.enabled && b.mcp_id == m.id {
            rest.push((m, b))
        } else {
            rest
        }
    }
}

/// The join of the provider set against its enabled bindings: every
/// (provider, enabled binding) pair with matching identifiers, grouped by
/// provider in provider order.
pub open spec fn enabled_pairs(mcps: Seq<McpView>, bindings: Seq<BindingView>) -> Seq<
    (McpView, BindingView),
>
    decreases mcps.len(),
{
    if mcps.len() == 0 {
        Seq::empty()
    } else {
        enabled_pairs(mcps.drop_last(), bindings) + pairs_for(mcps.last(), bindings)
    }
}

/// Joins the providers against their enabled bindings, as [`enabled_pairs`]
/// describes.
pub fn get_enabled_mcps_with_bindings(mcps: &Vec<Mcp>, bindings: &Vec<ProjectMcpBinding>) -> (r:
    Vec<(Mcp, ProjectMcpBinding)>)
    ensures
        pair_mb_views(r@) == enabled_pairs(mcp_views(mcps@), binding_views(bindings@)),
{
    let ghost mv = mcp_views(mcps@);
    let ghost bv = binding_views(bindings@);
    let mut out: Vec<(Mcp, ProjectMcpBinding)> = Vec::new();
    let n: usize = mcps.len();
    let mut i: usize = 0;
    while i < n
        invariant
            n == mcps@.len(),
            mv == mcp_views(mcps@),
            bv == binding_views(bindings@),
            0 <= i <= n,
            pair_mb_views(out@) =~= enabled_pairs(mv.take(i as int), bv),
        decreases n - i,
    {
        proof {
            assert(mv.take(i + 1).drop_last() =~= mv.take(i as int));
            assert(mv.take(i + 1).last() == mv[i as int]);
        }
        let bn: usize = bindings.len();
        let mut j: usize = 0;
        while j < bn
            invariant
                n == mcps@.len(),
                bn == bindings@.len(),
                mv == mcp_views(mcps@),
                bv == binding_views(bindings@),
                0 <= i < n,
                0 <= j <= bn,
                pair_mb_views(out@) =~= enabled_pairs(mv.take(i as int), bv) + pairs_for(
                    mv[i as int],
                    bv.take(j as int),
                ),
            decreases bn - j,
        {
            proof {
                assert(bv.take(j + 1).drop_last() =~= bv.take(j as int));
                assert(bv.take(j + 1).last() == bv[j as int]);
            }
            let ghost pre = out@;
            if bindings[j].enabled && bindings[j].mcp_id == mcps[i].id {
                proof {
                    assert(bv[j as int].enabled && bv[j as int].mcp_id == mv[i as int].id);
                }
                out.push((mcps[i].clone(), bindings[j].clone()));
                assert(pair_mb_views(out@) =~= pair_mb_views(pre).push(
                    (mv[i as int], bv[j as int]),
                ));
            } else {
                proof {
                    assert(!(bv[j as int].enabled && bv[j as int].mcp_id == mv[i as int].id));
                }
            }
            assert(pair_mb_views(out@) =~= enabled_pairs(mv.take(i as int), bv) + pairs_for(
                mv[i as int],
                bv.take(j + 1),
            ));
            j += 1;
        }
        assert(bv.take(bn as int) =~= bv);
        assert(pair_mb_views(out@) =~= enabled_pairs(mv.take(i + 1), bv));
        i += 1;
    }
    assert(mv.take(n as int) =~= mv);
    out
}

/// Resolves the environment a provider would run with for a project: fails
/// with `McpNotFound` when no provider carries the identifier and with
/// `BindingNotFound` when the project has no binding to it — whether or not
/// that binding is enabled — and otherwise merges the provider's defaults
/// with the binding's overrides as [`merge_env`] describes.
#[verifier::rlimit(60)]
pub fn resolve_config(mcps: &Vec<Mcp>, bindings: &Vec<ProjectMcpBinding>, mcp_id: &String) -> (r:
    Result<Vec<EnvVar>, GatewayError>)
    ensures
        !has_mcp_id(mcp_views(mcps@), mcp_id@) ==> r == Err::<Vec<EnvVar>, GatewayError>(
            GatewayError::McpNotFound,
        ),
        has_mcp_id(mcp_views(mcps@), mcp_id@) && !has_binding_for(binding_views(bindings@), mcp_id@)
            ==> r == Err::<Vec<EnvVar>, GatewayError>(GatewayError::BindingNotFound),
        has_mcp_id(mcp_views(mcps@), mcp_id@) && has_binding_for(binding_views(bindings@), mcp_id@)
            ==> r is Ok,
        r matches Ok(env) ==> has_mcp_id(mcp_views(mcps@), mcp_id@) && has_binding_for(
            binding_views(bindings@),
            mcp_id@,
        ) && env_views(env@) == merge_env(
            mcp_views(mcps@)[first_mcp_index(mcp_views(mcps@), mcp_id@)].config.env_vars,
            binding_views(bindings@)[first_binding_index(
                binding_views(bindings@),
                mcp_id@,
            )].overrides,
        ),
{
    let mi = match find_mcp_by_id(mcps, mcp_id) {
        Some(mi) => mi,
        None => {
            return Err(GatewayError::McpNotFound);
        },
    };
    let bi = match find_binding_for(bindings, mcp_id) {
        Some(bi) => bi,
        None => {
            return Err(GatewayError::BindingNotFound);
        },
    };
    proof {
        assert(mcp_views(mcps@)[mi as int].id == mcp_id@);
    }
    let env = resolve_environment(&mcps[mi].config.env_vars, &bindings[bi].overrides);
    Ok(env)
}

} // verus!
