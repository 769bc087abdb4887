use oci_interceptor::bundle::get_bundle_path;

fn strs(xs: &[&str]) -> Vec<String> {
    xs.iter().map(|s| s.to_string()).collect()
}

#[test]
fn long_flag_with_eq_yields_path() {
    let opts = strs(&["create", "--bundle=/x", "c1"]);
    assert_eq!(get_bundle_path(&opts), Some("/x".to_string()));
}

#[test]
fn short_flag_takes_next_token() {
    let opts = strs(&["-b", "/x"]);
    assert_eq!(get_bundle_path(&opts), Some("/x".to_string()));
}

#[test]
fn short_flag_with_eq_yields_path() {
    let opts = strs(&["run", "-b=/x"]);
    assert_eq!(get_bundle_path(&opts), Some("/x".to_string()));
}

#[test]
fn flag_found_after_other_tokens() {
    let opts = strs(&["run", "--pid-file", "/tmp/pid", "--bundle", "/y", "c2"]);
    assert_eq!(get_bundle_path(&opts), Some("/y".to_string()));
}

#[test]
fn prefix_heuristic_matches_hyphenated_token() {
    // Deliberate legacy heuristic: a token merely starting with `-b` counts.
    let opts = strs(&["-bundle-ish", "/x"]);
    assert_eq!(get_bundle_path(&opts), Some("/x".to_string()));
}

#[test]
fn flag_as_last_token_fails_silently() {
    let opts = strs(&["create", "-b"]);
    assert_eq!(get_bundle_path(&opts), None);
}

#[test]
fn no_flag_yields_absent() {
    let opts = strs(&["delete", "mycontainer"]);
    assert_eq!(get_bundle_path(&opts), None);
}

#[test]
fn empty_list_yields_absent() {
    let opts: Vec<String> = Vec::new();
    assert_eq!(get_bundle_path(&opts), None);
}

#[test]
fn first_match_wins() {
    let opts = strs(&["--bundle=/first", "-b", "/second"]);
    assert_eq!(get_bundle_path(&opts), Some("/first".to_string()));
}

#[test]
fn eq_splits_at_first_eq() {
    let opts = strs(&["--bundle=/x=y"]);
    assert_eq!(get_bundle_path(&opts), Some("/x=y".to_string()));
}
