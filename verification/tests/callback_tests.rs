use std::fmt;
use std::sync::{Arc, RwLock};

use serde_json::Value;
use tracing::callsite::{DefaultCallsite, Identifier};
use tracing::field::{display, Field, FieldSet, Visit};
use tracing::metadata::Kind;
use tracing::{Event, Level, Metadata};
use tracing_async2::event::span_object;
use tracing_async2::{
    callback_layer, callback_layer_with_spans, FieldVisitor, JsonMap, OwnedEvent, OwnedEventWithSpans,
    TracingLevel,
};

/// Records what `tracing` visits into the library's field visitor.
struct TestRecorder(FieldVisitor);

impl Visit for TestRecorder {
    fn record_bool(&mut self, field: &Field, value: bool) {
        self.0.record_bool(field.name(), value);
    }
    fn record_f64(&mut self, field: &Field, value: f64) {
        self.0.record_value(field.name(), value.into());
    }
    fn record_i64(&mut self, field: &Field, value: i64) {
        self.0.record_i64(field.name(), value);
    }
    fn record_u64(&mut self, field: &Field, value: u64) {
        self.0.record_u64(field.name(), value);
    }
    fn record_str(&mut self, field: &Field, value: &str) {
        self.0.record_str(field.name(), value);
    }
    fn record_debug(&mut self, field: &Field, value: &dyn fmt::Debug) {
        self.0.record_debug(field.name(), format!("{:?}", value));
    }
}

fn owned(event: &Event<'_>) -> OwnedEvent {
    let mut recorder = TestRecorder(FieldVisitor::new());
    event.record(&mut recorder);
    OwnedEvent::from_metadata(event.metadata(), recorder.0)
}

const TARGET: &str = "tracing_async2::tests";
const FILE: &str = "tracing-async2/src/lib.rs";

static TRACE_CS: DefaultCallsite = DefaultCallsite::new(&TRACE_META);
static TRACE_META: Metadata<'static> = Metadata::new(
    "event tracing-async2/src/lib.rs:565",
    TARGET,
    Level::TRACE,
    Some(FILE),
    Some(565),
    Some(TARGET),
    FieldSet::new(&["message", "foo", "bar"], Identifier(&TRACE_CS)),
    Kind::EVENT,
);

static DEBUG_CS: DefaultCallsite = DefaultCallsite::new(&DEBUG_META);
static DEBUG_META: Metadata<'static> = Metadata::new(
    "event tracing-async2/src/lib.rs:566",
    TARGET,
    Level::DEBUG,
    Some(FILE),
    Some(566),
    Some(TARGET),
    FieldSet::new(&["message", "pi"], Identifier(&DEBUG_CS)),
    Kind::EVENT,
);

static INFO_CS: DefaultCallsite = DefaultCallsite::new(&INFO_META);
static INFO_META: Metadata<'static> = Metadata::new(
    "event tracing-async2/src/lib.rs:567",
    TARGET,
    Level::INFO,
    Some(FILE),
    Some(567),
    Some(TARGET),
    FieldSet::new(&["message", "job"], Identifier(&INFO_CS)),
    Kind::EVENT,
);

static WARN_CS: DefaultCallsite = DefaultCallsite::new(&WARN_META);
static WARN_META: Metadata<'static> = Metadata::new(
    "event tracing-async2/src/lib.rs:568",
    TARGET,
    Level::WARN,
    Some(FILE),
    Some(568),
    Some(TARGET),
    FieldSet::new(&["message", "job"], Identifier(&WARN_CS)),
    Kind::EVENT,
);

static ERROR_CS: DefaultCallsite = DefaultCallsite::new(&ERROR_META);
static ERROR_META: Metadata<'static> = Metadata::new(
    "event tracing-async2/src/lib.rs:569",
    TARGET,
    Level::ERROR,
    Some(FILE),
    Some(569),
    Some(TARGET),
    FieldSet::new(&["message", "job"], Identifier(&ERROR_CS)),
    Kind::EVENT,
);

static SPAN_CS: DefaultCallsite = DefaultCallsite::new(&SPAN_META);
static SPAN_META: Metadata<'static> = Metadata::new(
    "root-info",
    TARGET,
    Level::INFO,
    Some(FILE),
    Some(563),
    Some(TARGET),
    FieldSet::new(&["recurse"], Identifier(&SPAN_CS)),
    Kind::SPAN,
);

/// Hands the five events of the original test run to `emit`: one per level,
/// each with a message and the same fields.
fn run_trace_events(emit: &dyn Fn(&Event<'_>)) {
    let fs = TRACE_META.fields();
    let (m, foo, bar) = (fs.field("message").unwrap(), fs.field("foo").unwrap(), fs.field("bar").unwrap());
    let msg = display("this is a trace message");
    let values = [
        (&m, Some(&msg as &dyn tracing::Value)),
        (&foo, Some(&1i64 as &dyn tracing::Value)),
        (&bar, Some(&2i64 as &dyn tracing::Value)),
    ];
    let vs = fs.value_set(&values);
    emit(&Event::new(&TRACE_META, &vs));

    let fs = DEBUG_META.fields();
    let (m, pi) = (fs.field("message").unwrap(), fs.field("pi").unwrap());
    let msg = display("this is a debug message");
    let values = [(&m, Some(&msg as &dyn tracing::Value)), (&pi, Some(&3.14159265f64 as &dyn tracing::Value))];
    let vs = fs.value_set(&values);
    emit(&Event::new(&DEBUG_META, &vs));

    for (meta, text) in [
        (&INFO_META, "this is an info message"),
        (&WARN_META, "this is a warning message"),
        (&ERROR_META, "this is an error message"),
    ] {
        let fs = meta.fields();
        let (m, job) = (fs.field("message").unwrap(), fs.field("job").unwrap());
        let msg = display(text);
        let values = [(&m, Some(&msg as &dyn tracing::Value)), (&job, Some(&"foo" as &dyn tracing::Value))];
        let vs = fs.value_set(&values);
        emit(&Event::new(meta, &vs));
    }
}

fn check_events(events: &[OwnedEvent]) {
    assert_eq!(events.len(), 5);
    let levels = [
        TracingLevel::Trace,
        TracingLevel::Debug,
        TracingLevel::Info,
        TracingLevel::Warn,
        TracingLevel::Error,
    ];
    let messages = [
        "this is a trace message",
        "this is a debug message",
        "this is an info message",
        "this is a warning message",
        "this is an error message",
    ];
    for (i, e) in events.iter().enumerate() {
        assert_eq!(e.level, levels[i]);
        assert_eq!(e.message, Some(messages[i].to_string()));
        assert_eq!(e.target, TARGET.to_string());
        assert_eq!(e.file, Some(FILE.to_string()));
        assert!(e.fields.get("message").is_none());
    }
    assert_eq!(events[0].fields.len(), 2);
    assert_eq!(events[0].fields.get("foo"), Some(&Value::from(1)));
    assert_eq!(events[0].fields.get("bar"), Some(&Value::from(2)));
    assert_eq!(events[1].fields.len(), 1);
    assert_eq!(events[1].fields.get("pi"), Some(&Value::from(3.14159265f64)));
    for e in &events[2..] {
        assert_eq!(e.fields.len(), 1);
        assert_eq!(e.fields.get("job"), Some(&Value::String("foo".to_string())));
    }
}

#[test]
fn test_callback_layer() {
    let events = Arc::new(RwLock::new(Vec::<OwnedEvent>::new()));
    let cb_events = events.clone();
    let layer = callback_layer(move |event: &Event<'_>| {
        if let Ok(mut events) = cb_events.write() {
            events.push(owned(event));
        }
    });
    run_trace_events(&|event| layer.on_event(event));
    let events = events.read().expect("could not read events");
    check_events(&events);
}

#[test]
fn test_callback_layer_with_spans() {
    let events = Arc::new(RwLock::new(Vec::<OwnedEventWithSpans>::new()));
    let cb_events = events.clone();
    let layer = callback_layer_with_spans(move |event: &Event<'_>, spans: Option<Vec<JsonMap>>| {
        if let Ok(mut events) = cb_events.write() {
            events.push(OwnedEventWithSpans::new(owned(event), spans));
        }
    });
    let mut root_fields = FieldVisitor::new();
    root_fields.record_i64("recurse", 0);
    let root = root_fields.into_map();
    run_trace_events(&|event| layer.on_event(event, Some(vec![span_object(&SPAN_META, Some(root.clone()))])));
    let events = events.read().expect("could not read events");
    let plain: Vec<OwnedEvent> = events.iter().map(|e| e.event.clone()).collect();
    check_events(&plain);
    for e in events.iter() {
        let spans = e.spans.as_ref().unwrap();
        assert_eq!(spans.len(), 1);
        assert_eq!(spans[0].get("name"), Some(&Value::String("root-info".to_string())));
        assert_eq!(spans[0].get("level"), Some(&Value::String("INFO".to_string())));
        assert_eq!(spans[0].get("target"), Some(&Value::String(TARGET.to_string())));
        assert_eq!(spans[0].get("file"), Some(&Value::String(FILE.to_string())));
        assert_eq!(spans[0].get("line"), Some(&Value::from(563)));
        assert_eq!(spans[0].get("fields"), Some(&Value::Object(root.clone())));
    }
}
