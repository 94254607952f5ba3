//! Binding resolution: merging a provider's default environment entries with
//! a binding's overrides, keeping the default order and appending new keys.
use vstd::prelude::*;
use crate::models::{EnvVar, EnvVarView, env_views};

verus! {

/// Some entry of `env` has key `key`.
pub open spec fn has_key(env: Seq<EnvVarView>, key: Seq<char>) -> bool {
    exists|i: int| 0 <= i < env.len() && env[i].key == key
}

/// The least index of an entry of `env` with key `key`.
pub open spec fn first_key_index(env: Seq<EnvVarView>, key: Seq<char>) -> int {
    choose|i: int|
        0 <= i < env.len() && env[i].key == key && (forall|k: int|
            0 <= k < i ==> env[k].key != key)
}

/// Any witness index with no earlier occurrence pins `first_key_index` down.
pub proof fn lemma_first_key_index(env: Seq<EnvVarView>, key: Seq<char>, i: int)
    requires
        0 <= i < env.len(),
        env[i].key == key,
        forall|k: int| 0 <= k < i ==> env[k].key != key,
    ensures
        has_key(env, key),
        first_key_index(env, key) == i,
        0 <= first_key_index(env, key) < env.len(),
{
    assert(has_key(env, key));
    let c = first_key_index(env, key);
    assert(0 <= c < env.len() && env[c].key == key && (forall|k: int|
        0 <= k < c ==> env[k].key != key)) by {
        assert(0 <= i < env.len() && env[i].key == key && (forall|k: int|
            0 <= k < i ==> env[k].key != key));
    }
    if c < i {
        assert(env[c].key != key);
    }
    if i < c {
        assert(env[i].key != key);
    }
}

/// One override applied to an environment: an entry with the same key is
/// replaced in place (first occurrence), a new key is appended at the end.
pub open spec fn apply_override(env: Seq<EnvVarView>, o: EnvVarView) -> Seq<EnvVarView> {
    if has_key(env, o.key) {
        env.update(first_key_index(env, o.key), o)
    } else {
        env.push(o)
    }
}

/// The merged environment: provider defaults first, in their stored order,
/// each override applied in turn.
pub open spec fn merge_env(defaults: Seq<EnvVarView>, overrides: Seq<EnvVarView>) -> Seq<
    EnvVarView,
>
    decreases overrides.len(),
{
    if overrides.len() == 0 {
        defaults
    } else {
        apply_override(merge_env(defaults, overrides.drop_last()), overrides.last())
    }
}

/// The keys of an environment, in order.
pub open spec fn keys_of(env: Seq<EnvVarView>) -> Seq<Seq<char>> {
    env.map_values(|e: EnvVarView| e.key)
}

/// The override keys that are new with respect to the default keys `dk`, in
/// order of first occurrence.
pub open spec fn new_keys(dk: Seq<Seq<char>>, o: Seq<EnvVarView>) -> Seq<Seq<char>>
    decreases o.len(),
{
    if o.len() == 0 {
        Seq::empty()
    } else {
        let rest = new_keys(dk, o.drop_last());
        if dk.contains(o.last().key) || rest.contains(o.last().key) {
            rest
        } else {
            rest.push(o.last().key)
        }
    }
}

proof fn lemma_apply_override_keys(env: Seq<EnvVarView>, o: EnvVarView)
    ensures
        has_key(env, o.key) ==> keys_of(apply_override(env, o)) =~= keys_of(env),
        !has_key(env, o.key) ==> keys_of(apply_override(env, o)) =~= keys_of(env).push(o.key),
        has_key(env, o.key) == keys_of(env).contains(o.key),
{
    assert(has_key(env, o.key) == keys_of(env).contains(o.key)) by {
        if has_key(env, o.key) {
            let i = choose|i: int| 0 <= i < env.len() && env[i].key == o.key;
            assert(keys_of(env)[i] == o.key);
        }
        if keys_of(env).contains(o.key) {
            let i = choose|i: int| 0 <= i < keys_of(env).len() && keys_of(env)[i] == o.key;
            assert(env[i].key == o.key);
        }
    }
    if has_key(env, o.key) {
        let i = first_key_index(env, o.key);
        assert(0 <= i < env.len() && env[i].key == o.key) by {
            let w = choose|w: int| 0 <= w < env.len() && env[w].key == o.key;
            least_witness(env, o.key, w);
        }
    }
}

/// From any witness, establishes the properties of the least one.
proof fn least_witness(env: Seq<EnvVarView>, key: Seq<char>, w: int)
    requires
        0 <= w < env.len(),
        env[w].key == key,
    ensures
        0 <= first_key_index(env, key) < env.len(),
        env[first_key_index(env, key)].key == key,
        forall|k: int| 0 <= k < first_key_index(env, key) ==> env[k].key != key,
    decreases w,
{
    if forall|k: int| 0 <= k < w ==> env[k].key != key {
        lemma_first_key_index(env, key, w);
    } else {
        let w2 = choose|k: int| 0 <= k < w && env[k].key == key;
        least_witness(env, key, w2);
    }
}

/// Default keys keep their order and position; override-only keys are
/// appended after them, in override order of first occurrence.
pub proof fn lemma_merge_env_keys(d: Seq<EnvVarView>, o: Seq<EnvVarView>)
    ensures
        keys_of(merge_env(d, o)) =~= keys_of(d) + new_keys(keys_of(d), o),
    decreases o.len(),
{
    if o.len() == 0 {
        assert(keys_of(merge_env(d, o)) =~= keys_of(d) + new_keys(keys_of(d), o));
    } else {
        let m = merge_env(d, o.drop_last());
        let e = o.last();
        lemma_merge_env_keys(d, o.drop_last());
        lemma_apply_override_keys(m, e);
        let dk = keys_of(d);
        let rest = new_keys(dk, o.drop_last());
        assert(keys_of(m) =~= dk + rest);
        assert(keys_of(m).contains(e.key) == (dk.contains(e.key) || rest.contains(e.key))) by {
            if keys_of(m).contains(e.key) {
                let i = choose|i: int| 0 <= i < keys_of(m).len() && keys_of(m)[i] == e.key;
                if i < dk.len() {
                    assert(dk[i] == e.key);
                } else {
                    assert(rest[i - dk.len()] == e.key);
                }
            }
            if dk.contains(e.key) {
                let i = choose|i: int| 0 <= i < dk.len() && dk[i] == e.key;
                assert(keys_of(m)[i] == e.key);
            }
            if rest.contains(e.key) {
                let i = choose|i: int| 0 <= i < rest.len() && rest[i] == e.key;
                assert(keys_of(m)[dk.len() + i] == e.key);
            }
        }
    }
}

/// An entry of the defaults whose key no override carries comes through the
/// merge unchanged, at its original position.
pub proof fn lemma_merge_env_preserves_unoverridden(d: Seq<EnvVarView>, o: Seq<EnvVarView>, i: int)
    requires
        0 <= i < d.len(),
        forall|k: int| 0 <= k < o.len() ==> o[k].key != d[i].key,
    ensures
        merge_env(d, o).len() >= d.len(),
        merge_env(d, o)[i] == d[i],
    decreases o.len(),
{
    lemma_merge_env_keys(d, o);
    if o.len() > 0 {
        let m = merge_env(d, o.drop_last());
        let e = o.last();
        lemma_merge_env_preserves_unoverridden(d, o.drop_last(), i);
        lemma_merge_env_keys(d, o.drop_last());
        if has_key(m, e.key) {
            let fi = first_key_index(m, e.key);
            let w = choose|w: int| 0 <= w < m.len() && m[w].key == e.key;
            least_witness(m, e.key, w);
            assert(m[fi].key == e.key);
            assert(fi != i) by {
                assert(o[o.len() - 1].key != d[i].key);
            }
        }
    }
}

/// Overriding an existing key replaces the first entry with that key in
/// place: every other entry, the length, and the entry's position and key
/// are unchanged; only its value and secret flag move.
pub proof fn lemma_override_in_place(env: Seq<EnvVarView>, o: EnvVarView)
    requires
        has_key(env, o.key),
    ensures
        apply_override(env, o).len() == env.len(),
        0 <= first_key_index(env, o.key) < env.len(),
        env[first_key_index(env, o.key)].key == o.key,
        apply_override(env, o)[first_key_index(env, o.key)] == o,
        forall|j: int|
            0 <= j < env.len() && j != first_key_index(env, o.key) ==> apply_override(env, o)[j]
                == env[j],
{
    let w = choose|w: int| 0 <= w < env.len() && env[w].key == o.key;
    least_witness(env, o.key, w);
}

fn find_key_index(env: &Vec<EnvVar>, key: &String) -> (r: Option<usize>)
    ensures
        match r {
            Some(i) => 0 <= i < env@.len() && env@[i as int]@.key == key@ && (forall|k: int|
                0 <= k < i ==> env_views(env@)[k].key != key@) && i as int == first_key_index(
                env_views(env@),
                key@,
            ),
            None => !has_key(env_views(env@), key@),
        },
{
    let ghost ev = env_views(env@);
    let n: usize = env.len();
    let mut i: usize = 0;
    while i < n
        invariant
            n == env@.len(),
            ev == env_views(env@),
            0 <= i <= n,
            forall|k: int| 0 <= k < i ==> ev[k].key != key@,
        decreases n - i,
    {
        if env[i].key == *key {
            assert(ev[i as int].key == key@);
            proof {
                lemma_first_key_index(ev, key@, i as int);
            }
            return Some(i);
        }
        assert(ev[i as int].key != key@);
        i += 1;
    }
    None
}

/// Merges a provider's default entries with a binding's overrides, as
/// [`merge_env`] describes: defaults first in their stored order, an override
/// of an existing key replacing value and secret flag in place, override-only
/// keys appended in override order.
pub fn resolve_environment(defaults: &Vec<EnvVar>, overrides: &Vec<EnvVar>) -> (r: Vec<EnvVar>)
    ensures
        env_views(r@) == merge_env(env_views(defaults@), env_views(overrides@)),
{
    let ghost dv = env_views(defaults@);
    let ghost ov = env_views(overrides@);
    let mut out: Vec<EnvVar> = Vec::new();
    let dn: usize = defaults.len();
    let mut i: usize = 0;
    while i < dn
        invariant
            dn == defaults@.len(),
            dv == env_views(defaults@),
            0 <= i <= dn,
            env_views(out@) =~= dv.take(i as int),
        decreases dn - i,
    {
        out.push(defaults[i].clone());
        assert(env_views(out@) =~= dv.take(i + 1)) by {
            assert(dv.take(i + 1) =~= dv.take(i as int).push(dv[i as int]));
        }
        i += 1;
    }
    assert(dv.take(dn as int) =~= dv);
    assert(env_views(out@) =~= dv);
    let on: usize = overrides.len();
    let mut j: usize = 0;
    while j < on
        invariant
            on == overrides@.len(),
            ov == env_views(overrides@),
            dv == env_views(defaults@),
            0 <= j <= on,
            env_views(out@) == merge_env(dv, ov.take(j as int)),
        decreases on - j,
    {
        let ghost pre = env_views(out@);
        assert(ov.take(j + 1).drop_last() =~= ov.take(j as int));
        assert(ov.take(j + 1).last() == ov[j as int]);
        match find_key_index(&out, &overrides[j].key) {
            Some(idx) => {
                proof {
                    assert(overrides@[j as int]@.key == ov[j as int].key);
                    assert(pre[idx as int].key == ov[j as int].key);
                    assert(has_key(pre, ov[j as int].key));
                }
                out[idx] = overrides[j].clone();
                assert(env_views(out@) =~= pre.update(idx as int, ov[j as int]));
            },
            None => {
                out.push(overrides[j].clone());
                assert(env_views(out@) =~= pre.push(ov[j as int]));
            },
        }
        assert(env_views(out@) == merge_env(dv, ov.take(j + 1)));
        j += 1;
    }
    assert(ov.take(on as int) =~= ov);
    out
}

} // verus!
