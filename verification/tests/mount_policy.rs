use oci_interceptor::model::{Mount, RuntimeSpec};
use oci_interceptor::networking_mounts::modify_networking_mounts;

fn strs(xs: &[&str]) -> Vec<String> {
    xs.iter().map(|s| s.to_string()).collect()
}

fn mount(destination: &str, options: Option<&[&str]>) -> Mount {
    Mount { destination: destination.to_string(), options: options.map(strs) }
}

fn spec_with_mounts(mounts: Vec<Mount>) -> RuntimeSpec {
    RuntimeSpec { process: None, mounts: Some(mounts), hostname: None }
}

fn options_of(spec: &RuntimeSpec, i: usize) -> Option<Vec<String>> {
    spec.mounts.as_ref().expect("mounts vanished")[i].options.clone()
}

#[test]
fn ro_is_appended_to_hosts_mount() {
    let mut spec = spec_with_mounts(vec![mount("/etc/hosts", Some(&["rbind"]))]);
    let changed = modify_networking_mounts(&mut spec);
    assert!(changed);
    assert_eq!(options_of(&spec, 0), Some(strs(&["rbind", "ro"])));
}

#[test]
fn existing_ro_is_not_duplicated() {
    let mut spec = spec_with_mounts(vec![mount("/etc/hosts", Some(&["rbind", "ro"]))]);
    let changed = modify_networking_mounts(&mut spec);
    assert!(!changed);
    assert_eq!(options_of(&spec, 0), Some(strs(&["rbind", "ro"])));
}

#[test]
fn all_three_networking_destinations_are_touched() {
    let mut spec = spec_with_mounts(vec![
        mount("/etc/hosts", Some(&["rbind"])),
        mount("/etc/hostname", Some(&["rbind"])),
        mount("/etc/resolv.conf", Some(&["rbind"])),
    ]);
    let changed = modify_networking_mounts(&mut spec);
    assert!(changed);
    for i in 0..3 {
        assert_eq!(options_of(&spec, i), Some(strs(&["rbind", "ro"])));
    }
}

#[test]
fn other_destinations_are_untouched() {
    let mut spec = spec_with_mounts(vec![mount("/data", Some(&["rbind", "rw"]))]);
    let changed = modify_networking_mounts(&mut spec);
    assert!(!changed);
    assert_eq!(options_of(&spec, 0), Some(strs(&["rbind", "rw"])));
}

#[test]
fn mount_without_options_is_skipped() {
    let mut spec = spec_with_mounts(vec![mount("/etc/hosts", None)]);
    let changed = modify_networking_mounts(&mut spec);
    assert!(!changed);
    assert_eq!(options_of(&spec, 0), None);
}

#[test]
fn spec_without_mounts_is_untouched() {
    let mut spec = RuntimeSpec { process: None, mounts: None, hostname: None };
    let changed = modify_networking_mounts(&mut spec);
    assert!(!changed);
    assert!(spec.mounts.is_none());
}

#[test]
fn option_order_is_preserved() {
    let mut spec = spec_with_mounts(vec![mount("/etc/resolv.conf", Some(&["rbind", "nosuid", "noexec"]))]);
    let changed = modify_networking_mounts(&mut spec);
    assert!(changed);
    assert_eq!(options_of(&spec, 0), Some(strs(&["rbind", "nosuid", "noexec", "ro"])));
}

#[test]
fn applying_twice_equals_applying_once() {
    let mut once = spec_with_mounts(vec![
        mount("/etc/hosts", Some(&["rbind"])),
        mount("/data", Some(&["rw"])),
        mount("/etc/hostname", None),
    ]);
    modify_networking_mounts(&mut once);
    let mut twice = spec_with_mounts(vec![
        mount("/etc/hosts", Some(&["rbind"])),
        mount("/data", Some(&["rw"])),
        mount("/etc/hostname", None),
    ]);
    modify_networking_mounts(&mut twice);
    let changed_again = modify_networking_mounts(&mut twice);
    assert!(!changed_again);
    for i in 0..3 {
        assert_eq!(options_of(&once, i), options_of(&twice, i));
    }
}
