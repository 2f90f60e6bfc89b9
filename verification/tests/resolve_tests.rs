use viewer_core::resolve::{join, path_is_absolute, resolve};

fn args(v: &[&str]) -> Vec<String> {
    v.iter().map(|s| s.to_string()).collect()
}

#[test]
fn no_arguments_resolves_to_empty() {
    let a = args(&[]);
    assert_eq!(resolve(&a, "/home/u", ""), "");
    assert_eq!(resolve(&a, "/home/u", ".bak"), "");
}

#[test]
fn one_argument_resolves_to_empty() {
    let a = args(&["prog"]);
    assert_eq!(resolve(&a, "/home/u", ""), "");
    assert_eq!(resolve(&a, "/home/u", ".bak"), "");
    assert_eq!(resolve(&a, "", "whatever"), "");
}

#[test]
fn relative_path_joins_working_directory() {
    let a = args(&["prog", "notes.txt"]);
    assert_eq!(resolve(&a, "/home/u", ""), "/home/u/notes.txt");
}

#[test]
fn suffix_is_appended_as_text() {
    let a = args(&["prog", "notes.txt"]);
    assert_eq!(resolve(&a, "/home/u", ".bak"), "/home/u/notes.txt.bak");
}

#[test]
fn absolute_path_discards_working_directory() {
    let a = args(&["prog", "/etc/hosts"]);
    assert_eq!(resolve(&a, "/home/u", ""), "/etc/hosts");
    assert_eq!(resolve(&a, "/home/u", ".bak"), "/etc/hosts.bak");
}

#[test]
fn nested_relative_path_joins() {
    let a = args(&["prog", "docs/a.txt"]);
    assert_eq!(resolve(&a, "/home/u", ""), "/home/u/docs/a.txt");
}

#[test]
fn empty_working_directory_leaves_raw_path() {
    let a = args(&["prog", "notes.txt"]);
    assert_eq!(resolve(&a, "", ""), "notes.txt");
    assert_eq!(resolve(&a, "", ".bak"), "notes.txt.bak");
}

#[test]
fn resolve_is_deterministic() {
    let a = args(&["prog", "notes.txt"]);
    let first = resolve(&a, "/home/u", ".bak");
    let second = resolve(&a, "/home/u", ".bak");
    assert_eq!(first, second);
}

#[test]
fn join_keeps_single_separator() {
    assert_eq!(join("/home/u", "a"), "/home/u/a");
    assert_eq!(join("/home/u/", "a"), "/home/u/a");
}

#[test]
fn join_with_empty_directory_is_the_path() {
    assert_eq!(join("", "a"), "a");
    assert_eq!(join("", "/abs"), "/abs");
}

#[test]
fn join_with_absolute_path_replaces_directory() {
    assert_eq!(join("/home/u", "/etc/hosts"), "/etc/hosts");
}

#[test]
fn join_with_empty_path_keeps_trailing_separator() {
    assert_eq!(join("/home/u", ""), "/home/u/");
}

#[test]
fn absolute_paths_start_with_separator() {
    assert!(path_is_absolute("/a"));
    assert!(path_is_absolute("/"));
    assert!(!path_is_absolute("a/b"));
    assert!(!path_is_absolute(""));
}
