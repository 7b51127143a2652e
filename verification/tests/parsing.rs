use vstasks::model::{
    BaseTaskConfiguration, CommandOptions, Group, GroupKind, PresentationOptions, ProblemMatcher,
    TaskConfiguration, TaskType, Version,
};
use vstasks::text::parse;
use vstasks::decode::{decode_document, decode_group};
use vstasks::encode::encode_document;
use vstasks::json::JsonValue;
use vstasks::render::{render, serialize_document};

fn full_task() -> BaseTaskConfiguration {
    BaseTaskConfiguration {
        task_type: TaskType::Process,
        group: Group { kind: GroupKind::Build, is_default: false },
        label: String::from("Emit Greeting"),
        command: String::from("/bin/echo"),
        is_background: false,
        options: CommandOptions { cwd: String::from("/tmp") },
        args: vec![String::from("Hello,"), String::from("world!")],
        presentation: PresentationOptions {},
        problem_matcher: ProblemMatcher {},
    }
}

#[test]
fn parses_full_document() {
    let data = r#"
    {
        "version": "2.0.0",
        "tasks": [
            {
                "label": "Emit Greeting",
                "group": "build",
                "type": "process",
                "command": "/bin/echo",
                "isBackground": false,
                "options": { "cwd": "/tmp" },
                "args": ["Hello,", "world!"],
                "presentation": {},
                "problemMatcher": {}
            }
        ]
    }"#;
    let expected = TaskConfiguration {
        version: Version(String::from("2.0.0")),
        tasks: vec![full_task()],
    };
    assert_eq!(expected, parse(data).unwrap());
}

#[test]
fn minimal_task_gets_all_defaults() {
    let data = r#"{"tasks": [{"label": "Build It", "command": "make"}]}"#;
    let tc = parse(data).unwrap();
    assert_eq!(tc.version, Version(String::from("2.0.0")));
    assert_eq!(tc.tasks.len(), 1);
    let t = &tc.tasks[0];
    assert_eq!(t.label, "Build It");
    assert_eq!(t.command, "make");
    assert_eq!(t.task_type, TaskType::Shell);
    assert_eq!(t.group, Group { kind: GroupKind::Build, is_default: false });
    assert!(!t.is_background);
    assert_eq!(t.options.cwd, "");
    assert!(t.args.is_empty());
}

#[test]
fn empty_task_list_is_valid() {
    let tc = parse(r#"{"tasks": []}"#).unwrap();
    assert!(tc.tasks.is_empty());
    assert_eq!(tc.version, Version(String::from("2.0.0")));
}

#[test]
fn group_shorthand_build() {
    let g = decode_group(&JsonValue::Str(String::from("build"))).unwrap();
    assert_eq!(g, Group { kind: GroupKind::Build, is_default: false });
}

#[test]
fn group_shorthand_test() {
    let g = decode_group(&JsonValue::Str(String::from("test"))).unwrap();
    assert_eq!(g, Group { kind: GroupKind::Test, is_default: false });
}

#[test]
fn group_shorthand_unknown_falls_back_to_build() {
    let g = decode_group(&JsonValue::Str(String::from("anything-else"))).unwrap();
    assert_eq!(g, Group { kind: GroupKind::Build, is_default: false });
}

#[test]
fn group_object_full() {
    let data = r#"{"tasks": [{"group": {"kind": "test", "isDefault": true}}]}"#;
    let tc = parse(data).unwrap();
    assert_eq!(tc.tasks[0].group, Group { kind: GroupKind::Test, is_default: true });
}

#[test]
fn group_object_empty_gets_defaults() {
    let data = r#"{"tasks": [{"group": {}}]}"#;
    let tc = parse(data).unwrap();
    assert_eq!(tc.tasks[0].group, Group { kind: GroupKind::Build, is_default: false });
}

#[test]
fn round_trip_keeps_document_identical() {
    let data = r#"
    {
        "tasks": [
            {"label": "Emit Greeting", "command": "/bin/echo", "args": ["hi"]},
            {"label": "Check", "command": "make", "type": "process",
             "group": {"kind": "test", "isDefault": true}, "isBackground": true,
             "options": {"cwd": "/srv"}}
        ]
    }"#;
    let tc = parse(data).unwrap();
    let reserialized = encode_document(&tc);
    let reparsed = decode_document(&reserialized).unwrap();
    assert_eq!(tc, reparsed);
}

#[test]
fn round_trip_of_default_document() {
    let tc = TaskConfiguration::default();
    let reparsed = decode_document(&encode_document(&tc)).unwrap();
    assert_eq!(tc, reparsed);
}

#[test]
fn text_round_trip_keeps_document_identical() {
    let data = r#"
    {
        "version": "9.9",
        "tasks": [
            {"label": "Emit \"Greeting\"", "command": "/bin/echo", "args": ["a\tb", "c"]},
            {"label": "Run Tests", "type": "process", "group": "test"}
        ]
    }"#;
    let tc = parse(data).unwrap();
    let text = serialize_document(&tc);
    let reparsed = parse(&text).unwrap();
    assert_eq!(tc, reparsed);
}

#[test]
fn renderer_writes_canonical_text() {
    let v = JsonValue::Obj(vec![
        (String::from("a"), JsonValue::Arr(vec![
            JsonValue::Null,
            JsonValue::Bool(true),
            JsonValue::Str(String::from("x\"y\\z\n")),
        ])),
    ]);
    assert_eq!(render(&v), "{\"a\":[null,true,\"x\\\"y\\\\z\\u000a\"]}");
}

#[test]
fn malformed_text_is_a_parse_error() {
    assert!(parse("{ not json").is_err());
}

#[test]
fn missing_tasks_key_is_a_parse_error() {
    assert!(parse(r#"{"version": "2.0.0"}"#).is_err());
}

#[test]
fn non_array_tasks_is_a_parse_error() {
    assert!(parse(r#"{"tasks": {}}"#).is_err());
}

#[test]
fn non_object_document_is_a_parse_error() {
    assert!(parse(r#"[1, 2]"#).is_err());
}

#[test]
fn numeric_version_is_a_parse_error() {
    assert!(parse(r#"{"version": 3, "tasks": []}"#).is_err());
}

#[test]
fn numeric_label_is_a_parse_error() {
    assert!(parse(r#"{"tasks": [{"label": 7}]}"#).is_err());
}

#[test]
fn unknown_task_type_is_a_parse_error() {
    assert!(parse(r#"{"tasks": [{"type": "container"}]}"#).is_err());
}

#[test]
fn unknown_group_kind_in_object_form_is_a_parse_error() {
    assert!(parse(r#"{"tasks": [{"group": {"kind": "deploy"}}]}"#).is_err());
}

#[test]
fn non_bool_is_default_is_a_parse_error() {
    assert!(parse(r#"{"tasks": [{"group": {"isDefault": "yes"}}]}"#).is_err());
}

#[test]
fn numeric_group_is_a_parse_error() {
    assert!(parse(r#"{"tasks": [{"group": 1}]}"#).is_err());
}

#[test]
fn non_string_argument_is_a_parse_error() {
    assert!(parse(r#"{"tasks": [{"args": ["ok", 2]}]}"#).is_err());
}

#[test]
fn non_object_task_is_a_parse_error() {
    assert!(parse(r#"{"tasks": ["x"]}"#).is_err());
}

#[test]
fn unknown_keys_are_ignored() {
    let data = r#"{"tasks": [{"label": "a", "future": true}], "extra": [1]}"#;
    let tc = parse(data).unwrap();
    assert_eq!(tc.tasks[0].label, "a");
}
