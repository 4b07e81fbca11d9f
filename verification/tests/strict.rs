use loco_minijinja_engine::{FailureKind, MinijinjaView, ReloadMode};
use minijinja::Value;
use std::collections::BTreeMap;

/// The one place where this file, read as a template, asks for a value: the
/// field `name` of the data.
const GREETING: &str = "Hello {{ name }}!";

#[test]
fn file_that_reads_a_missing_field_fails() {
    assert_eq!(GREETING.len(), 17);
    for mode in [ReloadMode::Static, ReloadMode::Watching] {
        let view = MinijinjaView::with_mode("tests", None, mode).unwrap();
        let empty = Value::from_serialize(&BTreeMap::<String, String>::new());
        let failure = view.render_template("strict.rs", empty).unwrap_err();
        assert_eq!(failure.kind, FailureKind::Execution);
        assert!(
            failure.message.starts_with("undefined value"),
            "{}",
            failure.message
        );
    }
}

#[test]
fn file_that_reads_a_given_field_renders() {
    for mode in [ReloadMode::Static, ReloadMode::Watching] {
        let view = MinijinjaView::with_mode("tests", None, mode).unwrap();
        let data = Value::from_serialize(&BTreeMap::from([("name", "Ada")]));
        let text = view.render_template("strict.rs", data).unwrap();
        assert!(text.contains("\"Hello Ada!\""));
        assert!(text.starts_with("use loco_minijinja_engine::"));
    }
}
