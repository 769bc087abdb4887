//! The read-only networking-mounts mutation policy.
//!
//! For every mount whose destination is exactly `/etc/hosts`,
//! `/etc/hostname` or `/etc/resolv.conf`: if its option list does not
//! already hold the literal option `ro`, `ro` is appended, preserving the
//! existing option order. Mounts to any other destination, and mounts with
//! no options field at all, are left untouched.

use vstd::prelude::*;
use vstd::string::StringExecFns;

use crate::model::{Mount, MountModel, RuntimeSpec, SpecModel};
use crate::strutil::{clone_string_vec, string_eq};

verus! {

/// The destination is one of the three networking-related files.
pub open spec fn is_networking_dest(d: Seq<char>) -> bool {
    d == "/etc/hosts"@ || d == "/etc/hostname"@ || d == "/etc/resolv.conf"@
}

/// The option list holds the literal option `ro`.
pub open spec fn has_ro(opts: Seq<Seq<char>>) -> bool {
    exists|i: int| 0 <= i < opts.len() && opts[i] == "ro"@
}

/// One mount after the policy.
pub open spec fn mount_after_policy(m: MountModel) -> MountModel {
    if is_networking_dest(m.destination) {
        match m.options {
            Some(opts) => if has_ro(opts) {
                m
            } else {
                MountModel { destination: m.destination, options: Some(opts.push("ro"@)) }
            },
            None => m,
        }
    } else {
        m
    }
}

/// A mount sequence after the policy: each record rewritten in place.
pub open spec fn mounts_after_policy(ms: Seq<MountModel>) -> Seq<MountModel> {
    ms.map_values(|m: MountModel| mount_after_policy(m))
}

/// Whether the policy writes to any mount of the sequence.
pub open spec fn mounts_policy_changes(ms: Seq<MountModel>) -> bool {
    exists|i: int| 0 <= i < ms.len() && mount_after_policy(ms[i]) != ms[i]
}

/// The specification after the policy: its mount sequence rewritten,
/// every other field untouched. A specification with no mounts field is
/// left as it is.
pub open spec fn spec_after_mount_policy(s: SpecModel) -> SpecModel {
    match s.mounts {
        Some(ms) => SpecModel { mounts: Some(mounts_after_policy(ms)), ..s },
        None => s,
    }
}

/// Whether the policy writes to the specification.
pub open spec fn spec_mount_policy_changes(s: SpecModel) -> bool {
    match s.mounts {
        Some(ms) => mounts_policy_changes(ms),
        None => false,
    }
}

/// Whether `opts` holds the literal option `ro`.
fn vec_has_ro(opts: &Vec<String>) -> (r: bool)
    ensures
        r == has_ro(opts.deep_view()),
{
    let ro = String::from_str("ro");
    let mut i: usize = 0;
    while i < opts.len()
        invariant
            i <= opts.len(),
            ro@ == "ro"@,
            forall|j: int| 0 <= j < i ==> opts.deep_view()[j] != "ro"@,
        decreases opts.len() - i,
    {
        proof {
            assert(opts.deep_view()[i as int] == opts@[i as int]@);
        }
        if string_eq(&opts[i], &ro) {
            return true;
        }
        i += 1;
    }
    false
}

/// Whether the destination is one of the three networking files.
fn dest_is_networking(d: &String) -> (r: bool)
    ensures
        r == is_networking_dest(d@),
{
    let hosts = String::from_str("/etc/hosts");
    let hostname = String::from_str("/etc/hostname");
    let resolv = String::from_str("/etc/resolv.conf");
    string_eq(d, &hosts) || string_eq(d, &hostname) || string_eq(d, &resolv)
}

/// A fresh copy of a mount record.
fn clone_mount(m: &Mount) -> (r: Mount)
    ensures
        r.deep_view() == m.deep_view(),
{
    Mount {
        destination: m.destination.clone(),
        options: match &m.options {
            Some(v) => Some(clone_string_vec(v)),
            None => None,
        },
    }
}

/// The policy applied to one mount record; also reports whether the
/// record was rewritten.
fn apply_mount_policy(m: &Mount) -> (r: (Mount, bool))
    ensures
        r.0.deep_view() == mount_after_policy(m.deep_view()),
        r.1 == (mount_after_policy(m.deep_view()) != m.deep_view()),
{
    if dest_is_networking(&m.destination) {
        match &m.options {
            Some(opts) => {
                if vec_has_ro(opts) {
                    (clone_mount(m), false)
                } else {
                    let mut new_opts = clone_string_vec(opts);
                    let ghost before = new_opts.deep_view();
                    new_opts.push(String::from_str("ro"));
                    proof {
                        assert(new_opts.deep_view() =~= before.push("ro"@));
                        assert(before.push("ro"@).len() == before.len() + 1);
                    }
                    let nm = Mount { destination: m.destination.clone(), options: Some(new_opts) };
                    proof {
                        assert(nm.deep_view() == mount_after_policy(m.deep_view()));
                        assert(mount_after_policy(m.deep_view()) != m.deep_view());
                    }
                    (nm, true)
                }
            },
            None => (clone_mount(m), false),
        }
    } else {
        (clone_mount(m), false)
    }
}

/// Makes the networking-related mounts of the container specification
/// read-only. Returns whether anything was written.
pub fn modify_networking_mounts(spec: &mut RuntimeSpec) -> (changed: bool)
    ensures
        final(spec).deep_view() == spec_after_mount_policy(old(spec).deep_view()),
        changed == spec_mount_policy_changes(old(spec).deep_view()),
{
    match &spec.mounts {
        Some(mounts) => {
            let ghost ms = mounts.deep_view();
            let mut new_mounts: Vec<Mount> = Vec::new();
            let mut changed = false;
            let mut i: usize = 0;
            while i < mounts.len()
                invariant
                    i <= mounts.len(),
                    ms == mounts.deep_view(),
                    new_mounts.deep_view().len() == i,
                    forall|j: int| 0 <= j < i ==> new_mounts.deep_view()[j] == mount_after_policy(
                        ms[j],
                    ),
                    changed == exists|j: int|
                        0 <= j < i && mount_after_policy(ms[j]) != ms[j],
                decreases mounts.len() - i,
            {
                proof {
                    assert(mounts.deep_view()[i as int] == mounts@[i as int].deep_view());
                }
                let (nm, c) = apply_mount_policy(&mounts[i]);
                let ghost before = new_mounts.deep_view();
                let ghost nmv = nm.deep_view();
                new_mounts.push(nm);
                proof {
                    assert(new_mounts.deep_view() =~= before.push(nmv));
                }
                changed = changed || c;
                i += 1;
            }
            proof {
                assert(new_mounts.deep_view() =~= mounts_after_policy(ms));
            }
            spec.mounts = Some(new_mounts);
            changed
        },
        None => false,
    }
}

/// Applying the policy to one mount twice yields what applying it once
/// yields.
pub proof fn lemma_mount_policy_idempotent_one(m: MountModel)
    ensures
        mount_after_policy(mount_after_policy(m)) == mount_after_policy(m),
{
    if is_networking_dest(m.destination) {
        match m.options {
            Some(opts) => {
                if !has_ro(opts) {
                    let opts2 = opts.push("ro"@);
                    assert(opts2[opts.len() as int] == "ro"@);
                    assert(has_ro(opts2));
                }
            },
            None => {},
        }
    }
}

/// Idempotence of the read-only networking-mounts policy: applying it
/// twice in succession yields the same mount sequence as applying it once,
/// so no duplicate `ro` option is ever appended.
pub proof fn lemma_mount_policy_idempotent(ms: Seq<MountModel>)
    ensures
        mounts_after_policy(mounts_after_policy(ms)) == mounts_after_policy(ms),
{
    let once = mounts_after_policy(ms);
    assert forall|i: int| 0 <= i < once.len() implies mount_after_policy(once[i]) == once[i] by {
        lemma_mount_policy_idempotent_one(ms[i]);
    }
    assert(mounts_after_policy(once) =~= once);
}

/// Idempotence at the level of the whole specification.
pub proof fn lemma_spec_mount_policy_idempotent(s: SpecModel)
    ensures
        spec_after_mount_policy(spec_after_mount_policy(s)) == spec_after_mount_policy(s),
{
    match s.mounts {
        Some(ms) => {
            lemma_mount_policy_idempotent(ms);
        },
        None => {},
    }
}

} // verus!
