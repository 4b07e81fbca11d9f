use loco_minijinja_engine::error::stage_result;
use loco_minijinja_engine::view::mark_html;
use loco_minijinja_engine::{FailureKind, MinijinjaView, ReloadMode, ViewError};
use minijinja::{Environment, Value};
use std::collections::BTreeMap;

/// A template that does not parse: it closes a loop that was never opened.
/// This file holds it, so this file is itself a template that does not parse.
const UNPARSABLE: &str = "{% endfor %}";

fn greeting() -> Environment<'static> {
    let mut env = Environment::new();
    env.add_template("plain.txt", "Hello World!").unwrap();
    env.add_template("named.txt", "Hello {{ name }}!").unwrap();
    env.add_template(
        "list.html",
        "{% for item in items %}[{{ item }}]{% endfor %}",
    )
    .unwrap();
    env.add_template("strict.txt", "{{ user.name.first }}").unwrap();
    env
}

fn items(values: Vec<i64>) -> Value {
    Value::from_serialize(&BTreeMap::from([("items", values)]))
}

#[test]
fn static_text_ignores_the_data() {
    for mode in [ReloadMode::Static, ReloadMode::Watching] {
        let view = MinijinjaView::with_mode("tests", Some(greeting()), mode).unwrap();
        let data = [
            Value::from(()),
            Value::from(7),
            Value::from("text"),
            items(vec![1, 2, 3]),
            Value::from_serialize(&serde_json::Value::default()),
        ];
        for value in data {
            assert_eq!(view.render("plain.txt", value.clone()).unwrap(), "Hello World!");
            assert_eq!(view.render("plain.txt", value).unwrap(), "Hello World!");
        }
    }
}

#[test]
fn output_follows_the_sequence() {
    let view = MinijinjaView::from_custom("tests", Some(greeting())).unwrap();
    assert_eq!(view.render("list.html", items(vec![])).unwrap(), "");
    assert_eq!(view.render("list.html", items(vec![1, 2, 3])).unwrap(), "[1][2][3]");
    assert_eq!(view.render("list.html", items(vec![3, 2, 1])).unwrap(), "[3][2][1]");
    assert_eq!(
        view.render("list.html", items(vec![5, 5, -1, 5])).unwrap(),
        "[5][5][-1][5]"
    );
}

#[test]
fn data_fields_are_read_by_name() {
    let view = MinijinjaView::from_custom("tests", Some(greeting())).unwrap();
    let data = Value::from_serialize(&BTreeMap::from([("name", "Ada")]));
    assert_eq!(view.render_template("named.txt", data).unwrap(), "Hello Ada!");
}

#[test]
fn html_has_the_content_of_render() {
    for mode in [ReloadMode::Static, ReloadMode::Watching] {
        let view = MinijinjaView::with_mode("tests", Some(greeting()), mode).unwrap();
        for name in ["plain.txt", "list.html"] {
            let plain = view.render(name, items(vec![4, 2])).unwrap();
            let html = view.render_html(name, items(vec![4, 2])).unwrap();
            assert_eq!(html.0.as_bytes(), plain.as_bytes());
        }
        for name in ["strict.txt", "absent.txt", "named.txt"] {
            let plain = view.render(name, Value::from(())).unwrap_err();
            let html = view.render_html(name, Value::from(())).unwrap_err();
            assert_eq!(html.kind, plain.kind);
            assert_eq!(html.message, plain.message);
        }
    }
}

#[test]
fn missing_field_fails_while_it_runs() {
    for mode in [ReloadMode::Static, ReloadMode::Watching] {
        let view = MinijinjaView::with_mode("tests", Some(greeting()), mode).unwrap();
        for data in [Value::from(()), items(vec![1]), Value::from(3)] {
            let failure = view.render("named.txt", data).unwrap_err();
            assert_eq!(failure.kind, FailureKind::Execution);
            assert!(
                failure.message.starts_with("undefined value"),
                "{}",
                failure.message
            );
        }
        let failure = view.render("list.html", Value::from(())).unwrap_err();
        assert_eq!(failure.kind, FailureKind::Execution);
    }
}

#[test]
fn missing_field_fails_on_a_lenient_base_too() {
    let mut env = greeting();
    env.set_undefined_behavior(minijinja::UndefinedBehavior::Lenient);
    for mode in [ReloadMode::Static, ReloadMode::Watching] {
        let view = MinijinjaView::with_mode("tests", Some(env.clone()), mode).unwrap();
        let failure = view.render("named.txt", Value::from(())).unwrap_err();
        assert_eq!(failure.kind, FailureKind::Execution);
    }
}

#[test]
fn base_registrations_are_kept() {
    let mut env = greeting();
    env.add_global("site", "Loco");
    env.add_function("twice", |n: i64| n * 2);
    env.add_template("uses.txt", "{{ site }} {{ twice(21) }}").unwrap();
    for mode in [ReloadMode::Static, ReloadMode::Watching] {
        let view = MinijinjaView::with_mode("tests", Some(env.clone()), mode).unwrap();
        assert_eq!(view.render("uses.txt", Value::from(())).unwrap(), "Loco 42");
        assert_eq!(view.render("uses.txt", Value::from(())).unwrap(), "Loco 42");
        assert!(view
            .render("test_features.rs", Value::from(()))
            .unwrap()
            .starts_with("use loco_minijinja_engine::"));
    }
}

#[test]
fn mark_html_keeps_text_and_failure() {
    let marked = mark_html(Ok("<b>bold</b>".to_string())).unwrap();
    assert_eq!(marked.0, "<b>bold</b>");
    assert_eq!(mark_html(Ok(String::new())).unwrap().0, "");

    let failure = ViewError {
        kind: FailureKind::Lookup,
        message: "gone".to_string(),
    };
    let kept = mark_html(Err(failure)).unwrap_err();
    assert_eq!(kept.kind, FailureKind::Lookup);
    assert_eq!(kept.message, "gone");
}

#[test]
fn undefined_field_fails_while_it_runs() {
    let view = MinijinjaView::from_custom("tests", Some(greeting())).unwrap();
    let failure = view.render("strict.txt", Value::from(())).unwrap_err();
    assert_eq!(failure.kind, FailureKind::Execution);
    assert!(
        failure.message.starts_with("undefined value"),
        "{}",
        failure.message
    );
}

#[test]
fn unparsable_file_fails_at_lookup() {
    assert_eq!(UNPARSABLE, "{% endfor %}");
    for mode in [ReloadMode::Static, ReloadMode::Watching] {
        let view = MinijinjaView::with_mode("tests", None, mode).unwrap();
        let failure = view.render("render.rs", Value::from(())).unwrap_err();
        assert_eq!(failure.kind, FailureKind::Lookup);
        assert!(
            failure.message.starts_with("syntax error: "),
            "{}",
            failure.message
        );
    }
}

#[test]
fn files_under_the_root_are_templates() {
    for mode in [ReloadMode::Static, ReloadMode::Watching] {
        let view = MinijinjaView::with_mode("src", None, mode).unwrap();
        let first = view.render("lib.rs", Value::from(())).unwrap();
        assert!(first.starts_with("//! Template rendering"));
        assert!(first.contains("pub mod view;"));
        let again = view.render("lib.rs", items(vec![1])).unwrap();
        assert_eq!(first, again);
    }
}

#[test]
fn base_environment_wins_over_the_files() {
    let mut env = Environment::new();
    env.add_template("src/lib.rs", "from the base").unwrap();
    let view = MinijinjaView::from_custom(".", Some(env)).unwrap();
    assert_eq!(
        view.render("src/lib.rs", Value::from(())).unwrap(),
        "from the base"
    );
    assert!(view
        .render("tests/test_features.rs", Value::from(()))
        .unwrap()
        .starts_with("use loco_minijinja_engine::"));
}

#[test]
fn stage_result_passes_success_through() {
    let kept = stage_result(FailureKind::Execution, Ok("text".to_string())).unwrap();
    assert_eq!(kept, "text");
    assert_eq!(stage_result(FailureKind::Rebuild, Ok(17u8)).unwrap(), 17);
}

#[test]
fn stage_result_marks_each_kind() {
    for kind in [
        FailureKind::Rebuild,
        FailureKind::Lookup,
        FailureKind::Execution,
        FailureKind::Construction,
    ] {
        let cause = minijinja::Error::new(minijinja::ErrorKind::InvalidOperation, "boom");
        let shown = cause.to_string();
        let failure = stage_result::<String>(kind, Err(cause)).unwrap_err();
        assert_eq!(failure.kind, kind);
        assert_eq!(failure.message, shown);
        assert_eq!(failure.message, "invalid operation: boom");
    }
}

#[test]
fn from_engine_carries_the_diagnostic() {
    let cause = minijinja::Error::new(minijinja::ErrorKind::TemplateNotFound, "nowhere");
    let failure = ViewError::from_engine(FailureKind::Lookup, &cause);
    assert_eq!(failure.kind, FailureKind::Lookup);
    assert_eq!(failure.message, "template not found: nowhere");
    assert_eq!(failure.describe(), cause.to_string());
}
