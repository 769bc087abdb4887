use oci_interceptor::controller::{
    apply_enabled_policies, map_exit_status, on_spec_loaded, on_spec_saved, on_start, Step,
};
use oci_interceptor::env_vars::{EnvVar, EnvVarOverride};
use oci_interceptor::errors::InterceptError;
use oci_interceptor::model::{Mount, Process, RuntimeSpec};

fn strs(xs: &[&str]) -> Vec<String> {
    xs.iter().map(|s| s.to_string()).collect()
}

fn sample_spec() -> RuntimeSpec {
    RuntimeSpec {
        process: Some(Process { env: Some(strs(&["PATH=/bin"])) }),
        mounts: Some(vec![Mount {
            destination: "/etc/hosts".to_string(),
            options: Some(strs(&["rbind"])),
        }]),
        hostname: Some("box".to_string()),
    }
}

#[test]
fn exit_code_is_propagated_exactly() {
    assert_eq!(map_exit_status(Some(137)), 137);
    assert_eq!(map_exit_status(Some(0)), 0);
    assert_eq!(map_exit_status(Some(1)), 1);
}

#[test]
fn signal_termination_maps_to_sentinel() {
    assert_eq!(map_exit_status(None), -1);
}

#[test]
fn creation_call_loads_the_bundle() {
    let step = on_start(&strs(&["create", "--bundle=/x", "c1"]));
    match step {
        Step::Load { bundle } => assert_eq!(bundle, "/x"),
        _ => panic!("expected a load step"),
    }
}

#[test]
fn non_creation_call_forwards_directly() {
    let step = on_start(&strs(&["kill", "c1", "TERM"]));
    assert!(matches!(step, Step::Run));
}

#[test]
fn unreadable_spec_is_fatal() {
    let step = on_spec_loaded(None, &Vec::new(), true);
    match step {
        Step::Fail { error } => assert_eq!(error, InterceptError::SpecParse),
        _ => panic!("expected a failure step"),
    }
}

#[test]
fn zero_enabled_policies_never_save() {
    let step = on_spec_loaded(Some(sample_spec()), &Vec::new(), false);
    assert!(matches!(step, Step::Run));
}

#[test]
fn a_writing_policy_leads_to_save() {
    let step = on_spec_loaded(Some(sample_spec()), &Vec::new(), true);
    match step {
        Step::Save { spec } => {
            let mounts = spec.mounts.expect("mounts vanished");
            assert_eq!(mounts[0].options, Some(strs(&["rbind", "ro"])));
        },
        _ => panic!("expected a save step"),
    }
}

#[test]
fn a_policy_that_writes_nothing_skips_the_save() {
    let mut spec = sample_spec();
    spec.mounts = Some(vec![Mount {
        destination: "/etc/hosts".to_string(),
        options: Some(strs(&["rbind", "ro"])),
    }]);
    let step = on_spec_loaded(Some(spec), &Vec::new(), true);
    assert!(matches!(step, Step::Run));
}

#[test]
fn failed_save_is_fatal() {
    let step = on_spec_saved(false);
    match step {
        Step::Fail { error } => assert_eq!(error, InterceptError::SpecWrite),
        _ => panic!("expected a failure step"),
    }
}

#[test]
fn successful_save_forwards() {
    assert!(matches!(on_spec_saved(true), Step::Run));
}

#[test]
fn zero_policies_leave_the_spec_unchanged() {
    let mut spec = sample_spec();
    let changed = apply_enabled_policies(&mut spec, &Vec::new(), false);
    assert!(!changed);
    assert_eq!(spec.hostname, Some("box".to_string()));
    assert_eq!(spec.process.expect("process vanished").env, Some(strs(&["PATH=/bin"])));
    let mounts = spec.mounts.expect("mounts vanished");
    assert_eq!(mounts[0].destination, "/etc/hosts");
    assert_eq!(mounts[0].options, Some(strs(&["rbind"])));
}

#[test]
fn policies_compose_in_fixed_order() {
    let mut spec = sample_spec();
    let overrides = vec![EnvVarOverride::new(&EnvVar::new("FOO", "bar"), false)];
    let changed = apply_enabled_policies(&mut spec, &overrides, true);
    assert!(changed);
    assert_eq!(
        spec.process.expect("process vanished").env,
        Some(strs(&["PATH=/bin", "FOO=bar"]))
    );
    let mounts = spec.mounts.expect("mounts vanished");
    assert_eq!(mounts[0].options, Some(strs(&["rbind", "ro"])));
}

#[test]
fn every_failure_has_its_report() {
    assert_eq!(
        InterceptError::SpecParse.message(),
        "Unable to parse OCI runtime specification"
    );
    assert_eq!(
        InterceptError::SpecWrite.message(),
        "Unable to write updated OCI runtime specification"
    );
    assert_eq!(
        InterceptError::SubprocessLaunch.message(),
        "Failed to execute underlying OCI runtime"
    );
    assert_eq!(
        InterceptError::SubprocessWait.message(),
        "Failed to wait on OCI runtime process"
    );
}
