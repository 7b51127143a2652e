use vstasks::model::{TaskConfiguration, TaskType, Version};
use vstasks::label::task_name;
use vstasks::dispatch::{select_task, task_listing};
use vstasks::runner::{invocation_of, task_succeeded, TaskResult};
use vstasks::text::parse;

fn two_task_doc() -> TaskConfiguration {
    parse(
        r#"{"tasks": [
            {"label": "Emit Greeting", "command": "/bin/echo", "args": ["Hello,", "world!"]},
            {"label": "Run Tests", "command": "make", "type": "process"}
        ]}"#,
    )
    .unwrap()
}

#[test]
fn label_normalizes_to_identifier() {
    assert_eq!(task_name(String::from("Emit Greeting")), "emit_greeting");
}

#[test]
fn normalization_is_idempotent_on_examples() {
    let once = task_name(String::from("Emit Greeting"));
    assert_eq!(task_name(once.clone()), once);
    let odd = task_name(String::from("  A b_C 9 ?"));
    assert_eq!(task_name(odd.clone()), odd);
    let folded = task_name(String::from("GR\u{dc}SS\t\u{a0}\u{3a3}\u{39f}\u{3a3}"));
    assert_eq!(task_name(folded.clone()), folded);
}

#[test]
fn normalization_replaces_every_whitespace_character() {
    assert_eq!(task_name(String::from("a\tb\nc\u{a0}d\u{2003}e")), "a_b_c_d_e");
}

#[test]
fn normalization_folds_beyond_ascii() {
    assert_eq!(task_name(String::from("GR\u{dc}SS Welt")), "gr\u{fc}ss_welt");
    assert_eq!(
        task_name(String::from("\u{3a3}\u{39f}\u{3a6}\u{39f}\u{3a3}")),
        "\u{3c3}\u{3bf}\u{3c6}\u{3bf}\u{3c2}"
    );
}

#[test]
fn selection_finds_task_by_identifier() {
    let tc = two_task_doc();
    let t = select_task(&tc, "run_tests").unwrap();
    assert_eq!(t.label, "Run Tests");
    assert_eq!(t.command, "make");
}

#[test]
fn selection_without_match_selects_nothing() {
    let tc = two_task_doc();
    assert!(select_task(&tc, "deploy").is_none());
}

#[test]
fn selection_takes_first_match_when_labels_collide() {
    let tc = parse(
        r#"{"tasks": [
            {"label": "Same Name", "command": "first"},
            {"label": "Same Name", "command": "second"}
        ]}"#,
    )
    .unwrap();
    let t = select_task(&tc, "same_name").unwrap();
    assert_eq!(t.command, "first");
}

#[test]
fn listing_pairs_identifiers_with_types() {
    let tc = two_task_doc();
    let listing = task_listing(&tc);
    assert_eq!(listing.len(), 2);
    assert_eq!(listing[0].0, "emit_greeting");
    assert_eq!(listing[0].1, TaskType::Shell);
    assert_eq!(listing[1].0, "run_tests");
    assert_eq!(listing[1].1, TaskType::Process);
}

#[test]
fn greeting_task_builds_expected_invocation() {
    let tc = two_task_doc();
    assert_eq!(tc.version, Version(String::from("2.0.0")));
    let t = select_task(&tc, "emit_greeting").unwrap();
    let inv = invocation_of(t);
    assert_eq!(inv.program, "/bin/echo");
    assert_eq!(inv.args, vec![String::from("Hello,"), String::from("world!")]);
    assert!(inv.cwd.is_none());
}

#[test]
fn configured_cwd_is_passed_through() {
    let tc = parse(r#"{"tasks": [{"command": "ls", "options": {"cwd": "/srv"}}]}"#).unwrap();
    let inv = invocation_of(&tc.tasks[0]);
    assert_eq!(inv.cwd, Some(String::from("/srv")));
}

#[test]
fn zero_exit_is_success() {
    let res = TaskResult { stdout: b"ok\n".to_vec(), stderr: Vec::new(), code: Some(0) };
    assert!(task_succeeded(&res));
}

#[test]
fn non_zero_exit_is_failure() {
    let res = TaskResult { stdout: Vec::new(), stderr: b"boom".to_vec(), code: Some(2) };
    assert!(!task_succeeded(&res));
}

#[test]
fn missing_exit_code_is_failure() {
    let res = TaskResult { stdout: Vec::new(), stderr: Vec::new(), code: None };
    assert!(!task_succeeded(&res));
}
