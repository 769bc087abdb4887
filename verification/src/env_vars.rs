//! The environment-override mutation policy.
//!
//! An override carries a name, a value, and a `force` flag. Applied to the
//! specification's environment sequence, it replaces the first entry whose
//! name matches (only when forced) or appends a fresh `NAME=VALUE` entry
//! when no entry matches. Entries it was not asked to touch keep their
//! place and their text.

use vstd::prelude::*;
use vstd::string::StrSliceExecFns;
use vstd::string::StringExecFns;

use crate::errors::InterceptError;
use crate::model::{ProcessModel, RuntimeSpec, SpecModel};
use crate::strutil::{
    clone_string_vec, concat_strs, find_eq, first_eq_at, is_prefix_of, lemma_first_eq_at_bounds,
    str_has_prefix, string_eq,
};

verus! {

/// A `NAME=VALUE` pair.
#[derive(Clone, Debug)]
pub struct EnvVar {
    name: String,
    value: String,
}

/// Mathematical model of an [`EnvVar`].
#[verifier::ext_equal]
pub ghost struct EnvVarModel {
    pub name: Seq<char>,
    pub value: Seq<char>,
}

impl View for EnvVar {
    type V = EnvVarModel;

    closed spec fn view(&self) -> EnvVarModel {
        EnvVarModel { name: self.name@, value: self.value@ }
    }
}

impl EnvVar {
    pub fn new(name: &str, value: &str) -> (r: Self)
        ensures
            r@.name == name@,
            r@.value == value@,
    {
        EnvVar { name: String::from_str(name), value: String::from_str(value) }
    }
}

/// `s` is a well-formed `NAME=VALUE` token: it holds an `=`, and both the
/// text before the first `=` and the text after it are nonempty.
pub open spec fn valid_env_token(s: Seq<char>) -> bool {
    let k = first_eq_at(s, 0);
    0 < k && k < s.len() && k + 1 < s.len()
}

/// The text before the first `=` of `s`.
pub open spec fn token_name(s: Seq<char>) -> Seq<char> {
    s.subrange(0, first_eq_at(s, 0))
}

/// The text after the first `=` of `s`.
pub open spec fn token_value(s: Seq<char>) -> Seq<char> {
    s.subrange(first_eq_at(s, 0) + 1, s.len() as int)
}

/// Splits a raw `NAME=VALUE` token at its first `=`. Rejects a token with
/// no `=`, or whose name or value is empty.
pub fn parse_env_var(value: &str) -> (r: Result<EnvVar, InterceptError>)
    ensures
        valid_env_token(value@) ==> (r matches Ok(ev) && ev@.name == token_name(value@)
            && ev@.value == token_value(value@)),
        !valid_env_token(value@) ==> r == Err::<EnvVar, InterceptError>(
            InterceptError::MalformedEnvVar,
        ),
{
    let n = value.unicode_len();
    let k = find_eq(value);
    proof {
        lemma_first_eq_at_bounds(value@, 0);
    }
    if k == 0 || k >= n || k + 1 >= n {
        return Err(InterceptError::MalformedEnvVar);
    }
    let name = value.substring_char(0, k);
    let val = value.substring_char(k + 1, n);
    Ok(EnvVar::new(name, val))
}

/// An environment mutation request: replace when `force` is set, append
/// when the name is absent, leave the entry alone otherwise.
#[derive(Clone, Debug)]
pub struct EnvVarOverride {
    name: String,
    value: String,
    force: bool,
}

/// Mathematical model of an [`EnvVarOverride`].
#[verifier::ext_equal]
pub ghost struct OverrideModel {
    pub name: Seq<char>,
    pub value: Seq<char>,
    pub force: bool,
}

impl View for EnvVarOverride {
    type V = OverrideModel;

    closed spec fn view(&self) -> OverrideModel {
        OverrideModel { name: self.name@, value: self.value@, force: self.force }
    }
}

impl DeepView for EnvVarOverride {
    type V = OverrideModel;

    open spec fn deep_view(&self) -> OverrideModel {
        self.view()
    }
}

impl EnvVarOverride {
    pub fn new(var: &EnvVar, force: bool) -> (r: Self)
        ensures
            r@.name == var@.name,
            r@.value == var@.value,
            r@.force == force,
    {
        EnvVarOverride { name: var.name.clone(), value: var.value.clone(), force }
    }
}

/// The entry text `NAME=VALUE`.
pub open spec fn env_entry(name: Seq<char>, value: Seq<char>) -> Seq<char> {
    name + "="@ + value
}

/// The entry's name (its text before the first `=`) is `name`.
pub open spec fn entry_has_name(entry: Seq<char>, name: Seq<char>) -> bool {
    is_prefix_of(name + "="@, entry)
}

/// Index of the first entry at or after `k` whose name is `name`;
/// `env.len()` if none.
pub open spec fn env_match_at(env: Seq<Seq<char>>, name: Seq<char>, k: int) -> int
    decreases env.len() - k,
{
    if k < 0 || k >= env.len() {
        env.len() as int
    } else if entry_has_name(env[k], name) {
        k
    } else {
        env_match_at(env, name, k + 1)
    }
}

pub proof fn lemma_env_match_at_bounds(env: Seq<Seq<char>>, name: Seq<char>, k: int)
    requires
        0 <= k <= env.len(),
    ensures
        k <= env_match_at(env, name, k) <= env.len(),
        env_match_at(env, name, k) < env.len() ==> entry_has_name(
            env[env_match_at(env, name, k)],
            name,
        ),
        forall|j: int| k <= j < env_match_at(env, name, k) ==> !entry_has_name(env[j], name),
    decreases env.len() - k,
{
    if k < env.len() && !entry_has_name(env[k], name) {
        lemma_env_match_at_bounds(env, name, k + 1);
    }
}

/// One override applied to an environment sequence.
pub open spec fn apply_override(env: Seq<Seq<char>>, ov: OverrideModel) -> Seq<Seq<char>> {
    let i = env_match_at(env, ov.name, 0);
    if i < env.len() {
        if ov.force {
            env.update(i, env_entry(ov.name, ov.value))
        } else {
            env
        }
    } else {
        env.push(env_entry(ov.name, ov.value))
    }
}

/// Whether one override writes to the environment sequence: it appends,
/// or it forcibly replaces an entry with different text.
pub open spec fn override_changes(env: Seq<Seq<char>>, ov: OverrideModel) -> bool {
    let i = env_match_at(env, ov.name, 0);
    if i < env.len() {
        ov.force && env[i] != env_entry(ov.name, ov.value)
    } else {
        true
    }
}

/// A list of overrides applied in order.
pub open spec fn apply_overrides(env: Seq<Seq<char>>, ovs: Seq<OverrideModel>) -> Seq<Seq<char>>
    decreases ovs.len(),
{
    if ovs.len() == 0 {
        env
    } else {
        apply_overrides(apply_override(env, ovs[0]), ovs.drop_first())
    }
}

/// Whether any override in the list writes to the environment sequence.
pub open spec fn overrides_change(env: Seq<Seq<char>>, ovs: Seq<OverrideModel>) -> bool
    decreases ovs.len(),
{
    if ovs.len() == 0 {
        false
    } else {
        override_changes(env, ovs[0]) || overrides_change(
            apply_override(env, ovs[0]),
            ovs.drop_first(),
        )
    }
}

/// Applies one override to an environment vector.
fn apply_one_override(env: &mut Vec<String>, ov: &EnvVarOverride) -> (changed: bool)
    ensures
        final(env).deep_view() == apply_override(old(env).deep_view(), ov@),
        changed == override_changes(old(env).deep_view(), ov@),
{
    let prefix = concat_strs(ov.name.as_str(), "=");
    let mut i: usize = 0;
    while i < env.len()
        invariant
            i <= env.len(),
            env@ == old(env)@,
            prefix@ == ov@.name + "="@,
            env_match_at(env.deep_view(), ov@.name, 0) == env_match_at(
                env.deep_view(),
                ov@.name,
                i as int,
            ),
        decreases env.len() - i,
    {
        proof {
            assert(env.deep_view()[i as int] == env@[i as int]@);
        }
        if str_has_prefix(env[i].as_str(), prefix.as_str()) {
            proof {
                assert(env_match_at(env.deep_view(), ov@.name, i as int) == i);
            }
            if ov.force {
                let entry = concat_strs(prefix.as_str(), ov.value.as_str());
                let differs = !string_eq(&env[i], &entry);
                proof {
                    assert(entry@ == env_entry(ov@.name, ov@.value));
                }
                let ghost before = env.deep_view();
                env[i] = entry;
                proof {
                    assert(env.deep_view() =~= before.update(
                        i as int,
                        env_entry(ov@.name, ov@.value),
                    ));
                }
                return differs;
            } else {
                return false;
            }
        }
        i += 1;
    }
    let entry = concat_strs(prefix.as_str(), ov.value.as_str());
    proof {
        assert(entry@ == env_entry(ov@.name, ov@.value));
    }
    let ghost before = env.deep_view();
    env.push(entry);
    proof {
        assert(env.deep_view() =~= before.push(env_entry(ov@.name, ov@.value)));
    }
    true
}

/// Applies a list of overrides, in order, to an environment vector.
/// Returns whether any override wrote to it.
pub fn modify_env_list(env: &mut Vec<String>, vars: &Vec<EnvVarOverride>) -> (changed: bool)
    ensures
        final(env).deep_view() == apply_overrides(old(env).deep_view(), vars.deep_view()),
        changed == overrides_change(old(env).deep_view(), vars.deep_view()),
{
    let ghost env0 = env.deep_view();
    let ghost ovs = vars.deep_view();
    let mut changed = false;
    let mut k: usize = 0;
    proof {
        assert(ovs.skip(0) =~= ovs);
    }
    while k < vars.len()
        invariant
            k <= vars.len(),
            ovs == vars.deep_view(),
            apply_overrides(env0, ovs) == apply_overrides(env.deep_view(), ovs.skip(k as int)),
            overrides_change(env0, ovs) == (changed || overrides_change(
                env.deep_view(),
                ovs.skip(k as int),
            )),
        decreases vars.len() - k,
    {
        proof {
            assert(ovs.skip(k as int)[0] == ovs[k as int]);
            assert(ovs.skip(k as int).drop_first() =~= ovs.skip(k as int + 1));
            assert(vars.deep_view()[k as int] == vars@[k as int]@);
        }
        let c = apply_one_override(env, &vars[k]);
        changed = changed || c;
        k += 1;
    }
    proof {
        assert(ovs.skip(vars.len() as int) =~= Seq::<OverrideModel>::empty());
    }
    changed
}

/// The specification after the environment-override policy: its process
/// environment rewritten, every other field untouched. A specification
/// with no process section or no environment sequence is left as it is.
pub open spec fn spec_after_env_overrides(s: SpecModel, ovs: Seq<OverrideModel>) -> SpecModel {
    match s.process {
        Some(p) => match p.env {
            Some(env) => SpecModel {
                process: Some(ProcessModel { env: Some(apply_overrides(env, ovs)) }),
                ..s
            },
            None => s,
        },
        None => s,
    }
}

/// Whether the environment-override policy writes to the specification.
pub open spec fn env_overrides_change(s: SpecModel, ovs: Seq<OverrideModel>) -> bool {
    match s.process {
        Some(p) => match p.env {
            Some(env) => overrides_change(env, ovs),
            None => false,
        },
        None => false,
    }
}

/// Overrides environment variables in the container specification.
/// Returns whether anything was written.
pub fn modify_env_vars(spec: &mut RuntimeSpec, vars: &Vec<EnvVarOverride>) -> (changed: bool)
    ensures
        final(spec).deep_view() == spec_after_env_overrides(old(spec).deep_view(), vars.deep_view()),
        changed == env_overrides_change(old(spec).deep_view(), vars.deep_view()),
{
    match &spec.process {
        Some(process) => match &process.env {
            Some(env) => {
                let mut new_env = clone_string_vec(env);
                let changed = modify_env_list(&mut new_env, vars);
                spec.process = Some(crate::model::Process { env: Some(new_env) });
                changed
            },
            None => false,
        },
        None => false,
    }
}

/// The override semantics, stated of every environment sequence and every
/// single override: a present name keeps its entry (and every other entry)
/// unless `force` is set, in which case exactly that entry is rewritten in
/// place; an absent name appends one entry at the end.
pub proof fn lemma_override_semantics(env: Seq<Seq<char>>, ov: OverrideModel)
    ensures
        ({
            let i = env_match_at(env, ov.name, 0);
            &&& 0 <= i <= env.len()
            &&& i < env.len() ==> entry_has_name(env[i], ov.name)
            &&& forall|j: int| 0 <= j < i ==> !entry_has_name(env[j], ov.name)
            &&& (i < env.len() && !ov.force) ==> apply_override(env, ov) == env
            &&& (i < env.len() && ov.force) ==> apply_override(env, ov) == env.update(
                i,
                env_entry(ov.name, ov.value),
            )
            &&& i == env.len() ==> apply_override(env, ov) == env.push(
                env_entry(ov.name, ov.value),
            )
        }),
{
    lemma_env_match_at_bounds(env, ov.name, 0);
}

} // verus!
