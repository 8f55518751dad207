use serde_json::Value;
use tracing::callsite::{DefaultCallsite, Identifier};
use tracing::field::FieldSet;
use tracing::metadata::Kind;
use tracing::{Level, Metadata};
use tracing_async2::event::{span_object, span_object_from_parts};
use tracing_async2::{FieldVisitor, OwnedEvent, OwnedEventWithSpans, TracingLevel};

static EVENT_CALLSITE: DefaultCallsite = DefaultCallsite::new(&EVENT_META);
static EVENT_META: Metadata<'static> = Metadata::new(
    "event src/lib.rs:12",
    "tracing_async2",
    Level::WARN,
    Some("src/lib.rs"),
    Some(12),
    Some("tracing_async2"),
    FieldSet::new(&["message", "job"], Identifier(&EVENT_CALLSITE)),
    Kind::EVENT,
);

static SPAN_CALLSITE: DefaultCallsite = DefaultCallsite::new(&SPAN_META);
static SPAN_META: Metadata<'static> = Metadata::new(
    "root-info",
    "tracing_async2::tests",
    Level::INFO,
    None,
    None,
    None,
    FieldSet::new(&["recurse"], Identifier(&SPAN_CALLSITE)),
    Kind::SPAN,
);

fn recorded_with_message() -> FieldVisitor {
    let mut v = FieldVisitor::new();
    v.record_str("job", "foo");
    v.record_debug("message", "this is a warning message".to_string());
    v
}

#[test]
fn owned_event_takes_string_message_out_of_fields() {
    let e = OwnedEvent::from_parts(
        "event a.rs:1",
        "my_target",
        TracingLevel::Info,
        Some("a.rs"),
        Some(1),
        recorded_with_message(),
    );
    assert_eq!(e.message, Some("this is a warning message".to_string()));
    assert_eq!(e.fields.len(), 1);
    assert!(e.fields.get("message").is_none());
    assert_eq!(e.fields.get("job"), Some(&Value::String("foo".to_string())));
    assert_eq!(e.name, "event a.rs:1");
    assert_eq!(e.target, "my_target".to_string());
    assert_eq!(e.level, TracingLevel::Info);
    assert_eq!(e.file, Some("a.rs".to_string()));
    assert_eq!(e.line, Some(1));
}

#[test]
fn owned_event_drops_message_that_is_not_a_string() {
    let mut v = FieldVisitor::new();
    v.record_u64("message", 42);
    v.record_bool("ok", true);
    let e = OwnedEvent::from_parts("n", "t", TracingLevel::Debug, None, None, v);
    assert_eq!(e.message, None);
    assert!(e.fields.get("message").is_none());
    assert_eq!(e.fields.len(), 1);
    assert_eq!(e.fields.get("ok"), Some(&Value::Bool(true)));
    assert_eq!(e.file, None);
    assert_eq!(e.line, None);
}

#[test]
fn owned_event_without_message() {
    let mut v = FieldVisitor::new();
    v.record_i64("foo", 1);
    v.record_i64("bar", 2);
    let e = OwnedEvent::from_parts("n", "t", TracingLevel::Trace, None, Some(7), v);
    assert_eq!(e.message, None);
    assert_eq!(e.fields.len(), 2);
    assert_eq!(e.fields.get("foo"), Some(&Value::from(1)));
    assert_eq!(e.fields.get("bar"), Some(&Value::from(2)));
}

#[test]
fn owned_event_from_metadata() {
    let e = OwnedEvent::from_metadata(&EVENT_META, recorded_with_message());
    assert_eq!(e.name, "event src/lib.rs:12");
    assert_eq!(e.target, "tracing_async2".to_string());
    assert_eq!(e.level, TracingLevel::Warn);
    assert_eq!(e.file, Some("src/lib.rs".to_string()));
    assert_eq!(e.line, Some(12));
    assert_eq!(e.message, Some("this is a warning message".to_string()));
    assert_eq!(e.fields.get("job"), Some(&Value::String("foo".to_string())));
    assert!(e.fields.get("message").is_none());
}

#[test]
fn owned_event_clone_keeps_everything() {
    let e = OwnedEvent::from_metadata(&EVENT_META, recorded_with_message());
    let c = e.clone();
    assert_eq!(c.name, e.name);
    assert_eq!(c.target, e.target);
    assert_eq!(c.level, e.level);
    assert_eq!(c.file, e.file);
    assert_eq!(c.line, e.line);
    assert_eq!(c.message, e.message);
    assert_eq!(c.fields, e.fields);
}

#[test]
fn owned_event_with_spans_pairs() {
    let e = OwnedEvent::from_metadata(&EVENT_META, recorded_with_message());
    let spans = vec![span_object(&SPAN_META, None)];
    let w = OwnedEventWithSpans::new(e, Some(spans.clone()));
    assert_eq!(w.spans, Some(spans));
    assert_eq!(w.event.level, TracingLevel::Warn);
    let n = OwnedEventWithSpans::new(w.event.clone(), None);
    assert_eq!(n.spans, None);
}

#[test]
fn span_object_lists_the_span() {
    let mut v = FieldVisitor::new();
    v.record_i64("recurse", 0);
    let m = span_object(&SPAN_META, Some(v.into_map()));
    assert_eq!(m.len(), 6);
    assert_eq!(m.get("level"), Some(&Value::String("INFO".to_string())));
    assert_eq!(m.get("file"), Some(&Value::Null));
    assert_eq!(m.get("target"), Some(&Value::String("tracing_async2::tests".to_string())));
    assert_eq!(m.get("line"), Some(&Value::Null));
    assert_eq!(m.get("name"), Some(&Value::String("root-info".to_string())));
    let mut fields = serde_json::Map::new();
    fields.insert("recurse".to_string(), Value::from(0));
    assert_eq!(m.get("fields"), Some(&Value::Object(fields)));
}

#[test]
fn span_object_from_parts_with_everything_known() {
    let m = span_object_from_parts("DEBUG", Some("f.rs"), "t", Some(9), "s", None);
    assert_eq!(m.len(), 6);
    assert_eq!(m.get("level"), Some(&Value::String("DEBUG".to_string())));
    assert_eq!(m.get("file"), Some(&Value::String("f.rs".to_string())));
    assert_eq!(m.get("target"), Some(&Value::String("t".to_string())));
    assert_eq!(m.get("line"), Some(&Value::from(9)));
    assert_eq!(m.get("name"), Some(&Value::String("s".to_string())));
    assert_eq!(m.get("fields"), Some(&Value::Null));
}

#[test]
fn span_objects_keep_the_order_of_the_chain() {
    let mut v = FieldVisitor::new();
    v.record_i64("recurse", 0);
    let chain = vec![(&SPAN_META, Some(v)), (&EVENT_META, None)];
    let objects = tracing_async2::event::span_objects(&chain);
    assert_eq!(objects.len(), 2);
    assert_eq!(objects[0].get("name"), Some(&Value::String("root-info".to_string())));
    let mut fields = serde_json::Map::new();
    fields.insert("recurse".to_string(), Value::from(0));
    assert_eq!(objects[0].get("fields"), Some(&Value::Object(fields)));
    assert_eq!(objects[1].get("name"), Some(&Value::String("event src/lib.rs:12".to_string())));
    assert_eq!(objects[1].get("level"), Some(&Value::String("WARN".to_string())));
    assert_eq!(objects[1].get("line"), Some(&Value::from(12)));
    assert_eq!(objects[1].get("fields"), Some(&Value::Null));
    assert!(tracing_async2::event::span_objects(&vec![]).is_empty());
}
