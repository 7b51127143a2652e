use vstasks::locator::{candidate_paths, find_config_path, find_in_parents, LocateError};

fn comps(parts: &[&str]) -> Vec<String> {
    parts.iter().map(|p| String::from(*p)).collect()
}

#[test]
fn override_path_is_used_verbatim() {
    let cwd = comps(&["x", "y", "z"]);
    let existing: Vec<String> = Vec::new();
    let r = find_config_path(Some(String::from("/a/b/tasks.json")), &cwd, &existing);
    assert_eq!(r, Ok(String::from("/a/b/tasks.json")));
}

#[test]
fn upward_search_finds_distant_ancestor() {
    let cwd = comps(&["x", "y", "z"]);
    let existing = vec![String::from("/x/.vscode/tasks.json")];
    let r = find_config_path(None, &cwd, &existing);
    assert_eq!(r, Ok(String::from("/x/.vscode/tasks.json")));
}

#[test]
fn nearest_directory_wins() {
    let cwd = comps(&["x", "y"]);
    let existing = vec![
        String::from("/x/.vscode/tasks.json"),
        String::from("/x/y/.vscode/tasks.json"),
    ];
    let r = find_in_parents(&cwd, ".vscode/tasks.json", &existing);
    assert_eq!(r, Some(String::from("/x/y/.vscode/tasks.json")));
}

#[test]
fn root_is_probed_last() {
    let cwd = comps(&["x"]);
    let existing = vec![String::from("/.vscode/tasks.json")];
    let r = find_in_parents(&cwd, ".vscode/tasks.json", &existing);
    assert_eq!(r, Some(String::from("/.vscode/tasks.json")));
}

#[test]
fn search_without_hit_is_not_found() {
    let cwd = comps(&["x", "y", "z"]);
    let existing = vec![String::from("/elsewhere/tasks.json")];
    let r = find_config_path(None, &cwd, &existing);
    assert_eq!(r, Err(LocateError::NotFound));
}

#[test]
fn candidates_run_from_cwd_to_root() {
    let cwd = comps(&["x", "y"]);
    let cands = candidate_paths(&cwd, ".vscode/tasks.json");
    assert_eq!(
        cands,
        vec![
            String::from("/x/y/.vscode/tasks.json"),
            String::from("/x/.vscode/tasks.json"),
            String::from("/.vscode/tasks.json"),
        ]
    );
}
