//! The interceptor controller's decisions.
//!
//! The controller is a short state machine: resolve the bundle path from
//! the trailing arguments; when one is there, load the specification,
//! apply every enabled mutation policy in a fixed order (environment
//! overrides first, then the mount policy — they touch disjoint fields),
//! and save the result only when a policy wrote to it; then forward the
//! original, untouched argument list to the real runtime and terminate
//! with its exit status. A failure to load or to save is fatal: creation
//! must not proceed with a half-configured container. Each step here is a
//! pure decision; the surrounding program performs the file and process
//! work between the steps.

use vstd::prelude::*;

use crate::bundle::{bundle_path_spec, get_bundle_path};
use crate::env_vars::{
    apply_overrides, env_overrides_change, spec_after_env_overrides, EnvVarOverride, OverrideModel,
};
use crate::errors::InterceptError;
use crate::model::{ProcessModel, RuntimeSpec, SpecModel};
use crate::networking_mounts::{
    modify_networking_mounts, spec_after_mount_policy, spec_mount_policy_changes,
};

verus! {

/// The specification after the enabled policies, in their fixed order:
/// environment overrides first, then the read-only networking mounts.
pub open spec fn spec_after_policies(
    s: SpecModel,
    ovs: Seq<OverrideModel>,
    readonly_networking_mounts: bool,
) -> SpecModel {
    let s1 = spec_after_env_overrides(s, ovs);
    if readonly_networking_mounts {
        spec_after_mount_policy(s1)
    } else {
        s1
    }
}

/// Whether any enabled policy writes to the specification.
pub open spec fn policies_change(
    s: SpecModel,
    ovs: Seq<OverrideModel>,
    readonly_networking_mounts: bool,
) -> bool {
    env_overrides_change(s, ovs) || (readonly_networking_mounts && spec_mount_policy_changes(
        spec_after_env_overrides(s, ovs),
    ))
}

/// Applies every enabled mutation policy to the specification, in the
/// fixed order. Returns whether anything was written.
pub fn apply_enabled_policies(
    spec: &mut RuntimeSpec,
    overrides: &Vec<EnvVarOverride>,
    readonly_networking_mounts: bool,
) -> (changed: bool)
    ensures
        final(spec).deep_view() == spec_after_policies(
            old(spec).deep_view(),
            overrides.deep_view(),
            readonly_networking_mounts,
        ),
        changed == policies_change(
            old(spec).deep_view(),
            overrides.deep_view(),
            readonly_networking_mounts,
        ),
{
    let c1 = crate::env_vars::modify_env_vars(spec, overrides);
    let c2 = if readonly_networking_mounts {
        modify_networking_mounts(spec)
    } else {
        false
    };
    c1 || c2
}

/// What the interceptor must do next.
pub enum Step {
    /// Load the specification from `<bundle>/config.json`.
    Load { bundle: String },
    /// Write the mutated specification back to the bundle.
    Save { spec: RuntimeSpec },
    /// Spawn the underlying runtime with the original argument list and
    /// wait for it.
    Run,
    /// Report the error and terminate without forwarding.
    Fail { error: InterceptError },
}

/// The first decision: a resolvable bundle path means a creation call,
/// whose specification is loaded next; absence means a non-creation call,
/// forwarded directly — never an error.
pub fn on_start(options: &Vec<String>) -> (r: Step)
    ensures
        match bundle_path_spec(options.deep_view()) {
            Some(b) => r matches Step::Load { bundle } && bundle@ == b,
            None => r is Run,
        },
{
    match get_bundle_path(options) {
        Some(bundle) => Step::Load { bundle },
        None => Step::Run,
    }
}

/// The decision after loading: an unreadable specification is fatal;
/// otherwise the enabled policies run, and the result is saved only when
/// a policy wrote to it.
pub fn on_spec_loaded(
    loaded: Option<RuntimeSpec>,
    overrides: &Vec<EnvVarOverride>,
    readonly_networking_mounts: bool,
) -> (r: Step)
    ensures
        loaded is None ==> (r matches Step::Fail { error } && error == InterceptError::SpecParse),
        loaded matches Some(s0) ==> {
            let after = spec_after_policies(
                s0.deep_view(),
                overrides.deep_view(),
                readonly_networking_mounts,
            );
            if policies_change(s0.deep_view(), overrides.deep_view(), readonly_networking_mounts) {
                r matches Step::Save { spec } && spec.deep_view() == after
            } else {
                r is Run
            }
        },
{
    match loaded {
        None => Step::Fail { error: InterceptError::SpecParse },
        Some(mut s) => {
            let changed = apply_enabled_policies(&mut s, overrides, readonly_networking_mounts);
            if changed {
                Step::Save { spec: s }
            } else {
                Step::Run
            }
        },
    }
}

/// The decision after saving: a failed write is fatal, a successful one
/// proceeds to forwarding.
pub fn on_spec_saved(saved: bool) -> (r: Step)
    ensures
        saved ==> r is Run,
        !saved ==> (r matches Step::Fail { error } && error == InterceptError::SpecWrite),
{
    if saved {
        Step::Run
    } else {
        Step::Fail { error: InterceptError::SpecWrite }
    }
}

/// Maps the child's termination to the interceptor's exit code: a normal
/// exit propagates the exact code; termination by a signal carries no
/// code, so a fixed sentinel reports the abnormal termination.
pub fn map_exit_status(code: Option<i32>) -> (r: i32)
    ensures
        code matches Some(c) ==> r == c,
        code is None ==> r == -1,
{
    match code {
        Some(c) => c,
        None => -1,
    }
}

/// With zero enabled policies the specification comes through the mutation
/// step untouched, and nothing asks for a save: a load–save round trip is
/// never reached, so the file keeps every field it was loaded with.
pub proof fn lemma_no_policies_no_change(s: SpecModel)
    ensures
        spec_after_policies(s, Seq::<OverrideModel>::empty(), false) == s,
        !policies_change(s, Seq::<OverrideModel>::empty(), false),
{
    match s.process {
        Some(p) => match p.env {
            Some(env) => {
                assert(apply_overrides(env, Seq::<OverrideModel>::empty()) == env);
                assert(ProcessModel { env: Some(env) } =~= p);
                assert(SpecModel {
                    process: Some(ProcessModel { env: Some(env) }),
                    ..s
                } =~= s);
            },
            None => {},
        },
        None => {},
    }
}

} // verus!
