use brainmux::paths::{
    bmux_home, home, home_fallback_used, join_path, provision_dirs, repo, FALLBACK_HOME,
};

#[test]
fn join_adds_a_separator_between_parts() {
    assert_eq!(join_path("/home/ada", ".brainmux"), "/home/ada/.brainmux");
}

#[test]
fn join_keeps_a_trailing_separator() {
    assert_eq!(join_path("/home/ada/", "logs"), "/home/ada/logs");
}

#[test]
fn join_with_absolute_part_replaces_base() {
    assert_eq!(join_path("/home/ada", "/etc/passwd"), "/etc/passwd");
}

#[test]
fn join_onto_empty_base_adds_no_separator() {
    assert_eq!(join_path("", "logs"), "logs");
}

#[test]
fn join_of_empty_part_ends_with_separator() {
    assert_eq!(join_path("/data", ""), "/data/");
}

#[test]
fn home_falls_back_to_tmp() {
    assert_eq!(home(None), FALLBACK_HOME);
    assert_eq!(home(None), "/tmp");
    assert_eq!(home(Some("/home/ada".to_string())), "/home/ada");
}

#[test]
fn data_dir_defaults_under_home() {
    assert_eq!(bmux_home(None, "/home/ada"), "/home/ada/.brainmux");
    assert_eq!(bmux_home(Some("/srv/bmux".to_string()), "/home/ada"), "/srv/bmux");
}

#[test]
fn repo_defaults_under_home() {
    assert_eq!(repo(None, "/home/ada"), "/home/ada/Development/Projects/brainmux/brainmux");
    assert_eq!(repo(Some("/src/brainmux".to_string()), "/home/ada"), "/src/brainmux");
}

#[test]
fn missing_home_is_noticed_only_when_it_is_needed() {
    assert!(home_fallback_used(&None, &None));
    assert!(!home_fallback_used(&Some("/x".to_string()), &None));
    assert!(!home_fallback_used(&None, &Some("/home/ada".to_string())));
}

#[test]
fn provisioned_dirs_are_the_data_dir_and_its_subdirs() {
    let dirs = provision_dirs("/home/ada/.brainmux");
    assert_eq!(
        dirs,
        vec![
            "/home/ada/.brainmux/",
            "/home/ada/.brainmux/logs",
            "/home/ada/.brainmux/models",
            "/home/ada/.brainmux/knowledge",
            "/home/ada/.brainmux/output",
            "/home/ada/.brainmux/runtime",
        ]
    );
}

#[test]
fn provisioned_dirs_stay_under_the_data_dir() {
    for base in ["/home/ada/.brainmux", "/tmp/", "rel"] {
        for d in provision_dirs(base) {
            assert!(d.starts_with(base), "{d} not under {base}");
        }
    }
}
