//! Owned forms of events and of the spans around them.
use vstd::prelude::*;
use crate::fields::FieldVisitor;
use crate::json::{
    json_from_opt_object, json_from_opt_str, json_from_opt_u32, json_from_str, json_map_clone, json_map_insert,
    json_map_new, json_map_remove, json_object_view, json_value_into_string, opt_object_view,
    opt_str_view, opt_u32_view, JsonMap, JsonView,
};
use crate::level::{level_as_str, level_label, TracingLevel};
use crate::metadata::{
    meta_file, meta_level, meta_line, meta_name, meta_target, metadata_file, metadata_level,
    metadata_line, metadata_name, metadata_target,
};

verus! {

/// The key of the field that holds an event's message.
pub open spec fn message_key() -> Seq<char> {
    seq!['m', 'e', 's', 's', 'a', 'g', 'e']
}

/// The message of an event with these recorded fields: the `message` field,
/// when it holds a string.
pub open spec fn message_of(fields: Map<Seq<char>, JsonView>) -> Option<Seq<char>> {
    if fields.contains_key(message_key()) && fields[message_key()] is Str {
        Some(fields[message_key()]->Str_0)
    } else {
        None
    }
}

/// The fields that an owned event keeps: all recorded fields but `message`.
pub open spec fn fields_without_message(fields: Map<Seq<char>, JsonView>) -> Map<Seq<char>, JsonView> {
    fields.remove(message_key())
}

/// An optional owned string, taken by its characters.
pub open spec fn opt_string_view(s: Option<String>) -> Option<Seq<char>> {
    match s {
        Some(s) => Some(s@),
        None => None,
    }
}

/// An optional borrowed string, taken by its characters.
pub open spec fn opt_str_chars(s: Option<&str>) -> Option<Seq<char>> {
    match s {
        Some(s) => Some(s@),
        None => None,
    }
}

/// How an optional string, taken by its characters, is written in JSON.
pub open spec fn opt_chars_view(s: Option<Seq<char>>) -> JsonView {
    match s {
        Some(s) => JsonView::Str(s),
        None => JsonView::Null,
    }
}

/// An owned version of a `tracing::Event`, which can be sent on a channel.
#[derive(Debug)]
pub struct OwnedEvent {
    pub level: TracingLevel,
    pub file: Option<String>,
    pub target: String,
    pub line: Option<u32>,
    pub name: &'static str,
    pub message: Option<String>,
    pub fields: JsonMap,
}

impl OwnedEvent {
    /// The entries of the event's field object.
    pub open spec fn fields_view(&self) -> Map<Seq<char>, JsonView> {
        json_object_view(self.fields)
    }

    /// Whether this event holds what an event with the given parts and
    /// recorded fields is turned into: the `message` field, when it holds a
    /// string, becomes the message, and leaves the fields in any case.
    pub open spec fn is_built_from(
        &self,
        name: Seq<char>,
        target: Seq<char>,
        level: TracingLevel,
        file: Option<Seq<char>>,
        line: Option<u32>,
        recorded: Map<Seq<char>, JsonView>,
    ) -> bool {
        &&& self.name@ == name
        &&& self.target@ == target
        &&& self.level == level
        &&& opt_string_view(self.file) == file
        &&& self.line == line
        &&& opt_string_view(self.message) == message_of(recorded)
        &&& self.fields_view() == fields_without_message(recorded)
    }

    /// Builds the owned event from the parts of its metadata and the fields
    /// that were recorded on it.
    pub fn from_parts(
        name: &'static str,
        target: &str,
        level: TracingLevel,
        file: Option<&str>,
        line: Option<u32>,
        fields: FieldVisitor,
    ) -> (r: OwnedEvent)
        ensures
            r.is_built_from(name@, target@, level, opt_str_chars(file), line, fields@),
    {
        let ghost recorded = fields@;
        let mut map = fields.into_map();
        proof {
            reveal_strlit("message");
            assert("message"@ =~= message_key());
        }
        let removed = json_map_remove(&mut map, "message");
        let message = match removed {
            Some(v) => json_value_into_string(v),
            None => None,
        };
        let file = match file {
            Some(f) => Some(String::from_str(f)),
            None => None,
        };
        OwnedEvent {
            name,
            target: String::from_str(target),
            level,
            file,
            line,
            message,
            fields: map,
        }
    }

    /// Builds the owned event from the metadata of a `tracing` event and the
    /// fields that were recorded on it.
    pub fn from_metadata(meta: &tracing::Metadata<'static>, fields: FieldVisitor) -> (r: OwnedEvent)
        ensures
            r.level.label() == level_label(metadata_level(*meta)),
            r.is_built_from(
                metadata_name(*meta),
                metadata_target(*meta),
                r.level,
                metadata_file(*meta),
                metadata_line(*meta),
                fields@,
            ),
    {
        let name = meta_name(meta);
        let target = meta_target(meta);
        let level = TracingLevel::from_level(meta_level(meta));
        let file = meta_file(meta);
        let line = meta_line(meta);
        Self::from_parts(name, target, level, file, line, fields)
    }
}

/// An owned event never keeps a `message` field among its fields; every
/// other recorded field is kept with the value recorded; and the message is
/// there exactly when the recorded `message` field held a string, which is
/// then the message.
pub proof fn lemma_message_moves_out_of_fields(
    e: OwnedEvent,
    name: Seq<char>,
    target: Seq<char>,
    level: TracingLevel,
    file: Option<Seq<char>>,
    line: Option<u32>,
    recorded: Map<Seq<char>, JsonView>,
)
    requires
        e.is_built_from(name, target, level, file, line, recorded),
    ensures
        !e.fields_view().contains_key(message_key()),
        forall|k: Seq<char>|
            k != message_key() ==> (#[trigger] e.fields_view().contains_key(k) <==> recorded.contains_key(k)),
        forall|k: Seq<char>|
            k != message_key() && recorded.contains_key(k) ==> #[trigger] e.fields_view()[k] == recorded[k],
        e.message is Some <==> (recorded.contains_key(message_key()) && recorded[message_key()] is Str),
        e.message matches Some(m) ==> recorded[message_key()] == JsonView::Str(m@),
{
}

fn clone_opt_string(s: &Option<String>) -> (r: Option<String>)
    ensures
        opt_string_view(r) == opt_string_view(*s),
{
    match s {
        Some(s) => Some(s.clone()),
        None => None,
    }
}

impl Clone for OwnedEvent {
    /// An event with the same parts and the same fields.
    fn clone(&self) -> (r: Self)
        ensures
            r.name == self.name,
            r.target@ == self.target@,
            r.level == self.level,
            opt_string_view(r.file) == opt_string_view(self.file),
            r.line == self.line,
            opt_string_view(r.message) == opt_string_view(self.message),
            r.fields_view() == self.fields_view(),
    {
        OwnedEvent {
            level: self.level,
            file: clone_opt_string(&self.file),
            target: self.target.clone(),
            line: self.line,
            name: self.name,
            message: clone_opt_string(&self.message),
            fields: json_map_clone(&self.fields),
        }
    }
}

/// An owned event together with the fields of its parent spans, from the
/// root span down.
#[derive(Debug)]
pub struct OwnedEventWithSpans {
    pub event: OwnedEvent,
    pub spans: Option<Vec<JsonMap>>,
}

impl OwnedEventWithSpans {
    /// Pairs an owned event with the objects of its parent spans.
    pub fn new(event: OwnedEvent, spans: Option<Vec<JsonMap>>) -> (r: Self)
        ensures
            r.event == event,
            r.spans == spans,
    {
        OwnedEventWithSpans { event, spans }
    }
}

/// The objects of the spans, each taken by its entries.
pub open spec fn spans_view(spans: Option<Vec<JsonMap>>) -> Option<Seq<Map<Seq<char>, JsonView>>> {
    match spans {
        Some(v) => Some(v@.map_values(|m: JsonMap| json_object_view(m))),
        None => None,
    }
}

fn clone_spans(spans: &Option<Vec<JsonMap>>) -> (r: Option<Vec<JsonMap>>)
    ensures
        spans_view(r) == spans_view(*spans),
{
    match spans {
        None => None,
        Some(v) => {
            let mut out: Vec<JsonMap> = Vec::new();
            let mut i: usize = 0;
            while i < v.len()
                invariant
                    i <= v.len(),
                    out.len() == i,
                    forall|j: int| 0 <= j < i ==> json_object_view(#[trigger] out@[j]) == json_object_view(v@[j]),
                decreases v.len() - i,
            {
                out.push(json_map_clone(&v[i]));
                i = i + 1;
            }
            assert(out@.map_values(|m: JsonMap| json_object_view(m)) =~= v@.map_values(|m: JsonMap| json_object_view(m)));
            Some(out)
        },
    }
}

impl Clone for OwnedEventWithSpans {
    /// The same event with the same spans.
    fn clone(&self) -> (r: Self)
        ensures
            r.event.name == self.event.name,
            r.event.target@ == self.event.target@,
            r.event.level == self.event.level,
            opt_string_view(r.event.file) == opt_string_view(self.event.file),
            r.event.line == self.event.line,
            opt_string_view(r.event.message) == opt_string_view(self.event.message),
            r.event.fields_view() == self.event.fields_view(),
            spans_view(r.spans) == spans_view(self.spans),
    {
        OwnedEventWithSpans { event: self.event.clone(), spans: clone_spans(&self.spans) }
    }
}

pub open spec fn key_level() -> Seq<char> {
    seq!['l', 'e', 'v', 'e', 'l']
}

pub open spec fn key_file() -> Seq<char> {
    seq!['f', 'i', 'l', 'e']
}

pub open spec fn key_target() -> Seq<char> {
    seq!['t', 'a', 'r', 'g', 'e', 't']
}

pub open spec fn key_line() -> Seq<char> {
    seq!['l', 'i', 'n', 'e']
}

pub open spec fn key_name() -> Seq<char> {
    seq!['n', 'a', 'm', 'e']
}

pub open spec fn key_fields() -> Seq<char> {
    seq!['f', 'i', 'e', 'l', 'd', 's']
}

/// The JSON object that describes a span: its level, file, target, line,
/// name and recorded fields, `null` where one is unknown.
pub open spec fn span_view(
    level: Seq<char>,
    file: JsonView,
    target: Seq<char>,
    line: JsonView,
    name: Seq<char>,
    fields: JsonView,
) -> Map<Seq<char>, JsonView> {
    map![
        key_level() => JsonView::Str(level),
        key_file() => file,
        key_target() => JsonView::Str(target),
        key_line() => line,
        key_name() => JsonView::Str(name),
        key_fields() => fields,
    ]
}

/// A span's object has exactly six entries: `level`, `file`, `target`,
/// `line`, `name` and `fields`.
pub proof fn lemma_span_object_keys(
    level: Seq<char>,
    file: JsonView,
    target: Seq<char>,
    line: JsonView,
    name: Seq<char>,
    fields: JsonView,
)
    ensures
        span_view(level, file, target, line, name, fields).dom() == set![
            key_level(),
            key_file(),
            key_target(),
            key_line(),
            key_name(),
            key_fields(),
        ],
        span_view(level, file, target, line, name, fields).dom().len() == 6,
{
    let d = span_view(level, file, target, line, name, fields).dom();
    assert(d =~= set![key_level(), key_file(), key_target(), key_line(), key_name(), key_fields()]);
    assert(key_level() != key_file());
    assert(key_level()[1] != key_target()[1]);
    assert(key_level() != key_line());
    assert(key_level() != key_name());
    assert(key_level()[0] != key_fields()[0]);
    assert(key_file()[0] != key_target()[0]);
    assert(key_file() != key_line());
    assert(key_file() != key_name());
    assert(key_file() != key_fields());
    assert(key_target()[0] != key_line()[0]);
    assert(key_target() != key_name());
    assert(key_target() != key_fields());
    assert(key_line() != key_name());
    assert(key_line() != key_fields());
    assert(key_name() != key_fields());
    assert(set![key_level(), key_file(), key_target(), key_line(), key_name(), key_fields()].len() == 6);
}

/// Each entry of a span's object holds what it was given under its own key:
/// `level` the level label, `file` the file, `target` the target, `line` the
/// line, `name` the name and `fields` the recorded fields; there are no other
/// entries.
pub proof fn lemma_span_view_entries(
    level: Seq<char>,
    file: JsonView,
    target: Seq<char>,
    line: JsonView,
    name: Seq<char>,
    fields: JsonView,
)
    ensures
        span_view(level, file, target, line, name, fields)[seq!['l', 'e', 'v', 'e', 'l']] == JsonView::Str(level),
        span_view(level, file, target, line, name, fields)[seq!['f', 'i', 'l', 'e']] == file,
        span_view(level, file, target, line, name, fields)[seq!['t', 'a', 'r', 'g', 'e', 't']] == JsonView::Str(target),
        span_view(level, file, target, line, name, fields)[seq!['l', 'i', 'n', 'e']] == line,
        span_view(level, file, target, line, name, fields)[seq!['n', 'a', 'm', 'e']] == JsonView::Str(name),
        span_view(level, file, target, line, name, fields)[seq!['f', 'i', 'e', 'l', 'd', 's']] == fields,
        span_view(level, file, target, line, name, fields).dom() == set![
            seq!['l', 'e', 'v', 'e', 'l'],
            seq!['f', 'i', 'l', 'e'],
            seq!['t', 'a', 'r', 'g', 'e', 't'],
            seq!['l', 'i', 'n', 'e'],
            seq!['n', 'a', 'm', 'e'],
            seq!['f', 'i', 'e', 'l', 'd', 's'],
        ],
{
    let v = span_view(level, file, target, line, name, fields);
    assert(seq!['l', 'e', 'v', 'e', 'l'] =~= key_level());
    assert(seq!['f', 'i', 'l', 'e'] =~= key_file());
    assert(seq!['t', 'a', 'r', 'g', 'e', 't'] =~= key_target());
    assert(seq!['l', 'i', 'n', 'e'] =~= key_line());
    assert(seq!['n', 'a', 'm', 'e'] =~= key_name());
    assert(seq!['f', 'i', 'e', 'l', 'd', 's'] =~= key_fields());
    assert(key_file()[0] != key_line()[0]);
    assert(key_file()[0] != key_name()[0]);
    assert(key_line()[0] != key_name()[0]);
    assert(key_fields()[0] != key_target()[0]);
    assert(key_level() != key_line());
    assert(v.dom() =~= set![
            seq!['l', 'e', 'v', 'e', 'l'],
            seq!['f', 'i', 'l', 'e'],
            seq!['t', 'a', 'r', 'g', 'e', 't'],
            seq!['l', 'i', 'n', 'e'],
            seq!['n', 'a', 'm', 'e'],
            seq!['f', 'i', 'e', 'l', 'd', 's'],
        ]);
}

/// The JSON object of a span, from the parts of its metadata and the
/// fields recorded on it, if any were.
pub fn span_object_from_parts(
    level: &str,
    file: Option<&str>,
    target: &str,
    line: Option<u32>,
    name: &str,
    fields: Option<JsonMap>,
) -> (m: JsonMap)
    ensures
        json_object_view(m) == span_view(
            level@,
            opt_str_view(file),
            target@,
            opt_u32_view(line),
            name@,
            opt_object_view(fields),
        ),
        json_object_view(m).dom() == set![
            seq!['l', 'e', 'v', 'e', 'l'],
            seq!['f', 'i', 'l', 'e'],
            seq!['t', 'a', 'r', 'g', 'e', 't'],
            seq!['l', 'i', 'n', 'e'],
            seq!['n', 'a', 'm', 'e'],
            seq!['f', 'i', 'e', 'l', 'd', 's'],
        ],
        json_object_view(m)[seq!['l', 'e', 'v', 'e', 'l']] == JsonView::Str(level@),
        file is None ==> json_object_view(m)[seq!['f', 'i', 'l', 'e']] == JsonView::Null,
        file matches Some(f) ==> json_object_view(m)[seq!['f', 'i', 'l', 'e']] == JsonView::Str(f@),
        json_object_view(m)[seq!['t', 'a', 'r', 'g', 'e', 't']] == JsonView::Str(target@),
        line is None ==> json_object_view(m)[seq!['l', 'i', 'n', 'e']] == JsonView::Null,
        line matches Some(n) ==> json_object_view(m)[seq!['l', 'i', 'n', 'e']] == JsonView::Int(n as int),
        json_object_view(m)[seq!['n', 'a', 'm', 'e']] == JsonView::Str(name@),
        fields is None ==> json_object_view(m)[seq!['f', 'i', 'e', 'l', 'd', 's']] == JsonView::Null,
        fields matches Some(fm) ==> json_object_view(m)[seq!['f', 'i', 'e', 'l', 'd', 's']] == JsonView::Object(json_object_view(fm)),
{
    let ghost fields_view = opt_object_view(fields);
    let mut m = json_map_new();
    proof {
        reveal_strlit("level");
        reveal_strlit("file");
        reveal_strlit("target");
        reveal_strlit("line");
        reveal_strlit("name");
        reveal_strlit("fields");
        assert("level"@ =~= key_level());
        assert("file"@ =~= key_file());
        assert("target"@ =~= key_target());
        assert("line"@ =~= key_line());
        assert("name"@ =~= key_name());
        assert("fields"@ =~= key_fields());
    }
    json_map_insert(&mut m, String::from_str("level"), json_from_str(level));
    json_map_insert(&mut m, String::from_str("file"), json_from_opt_str(file));
    json_map_insert(&mut m, String::from_str("target"), json_from_str(target));
    json_map_insert(&mut m, String::from_str("line"), json_from_opt_u32(line));
    json_map_insert(&mut m, String::from_str("name"), json_from_str(name));
    json_map_insert(&mut m, String::from_str("fields"), json_from_opt_object(fields));
    assert(json_object_view(m) =~= span_view(
        level@,
        opt_str_view(file),
        target@,
        opt_u32_view(line),
        name@,
        fields_view,
    ));
    proof {
        lemma_span_view_entries(level@, opt_str_view(file), target@, opt_u32_view(line), name@, fields_view);
    }
    m
}

/// The JSON object of a span, from its metadata and the fields recorded on
/// it, if any were.
pub fn span_object(meta: &tracing::Metadata<'static>, fields: Option<JsonMap>) -> (m: JsonMap)
    ensures
        json_object_view(m) == span_view(
            level_label(metadata_level(*meta)),
            opt_chars_view(metadata_file(*meta)),
            metadata_target(*meta),
            opt_u32_view(metadata_line(*meta)),
            metadata_name(*meta),
            opt_object_view(fields),
        ),
        json_object_view(m).dom() == set![
            seq!['l', 'e', 'v', 'e', 'l'],
            seq!['f', 'i', 'l', 'e'],
            seq!['t', 'a', 'r', 'g', 'e', 't'],
            seq!['l', 'i', 'n', 'e'],
            seq!['n', 'a', 'm', 'e'],
            seq!['f', 'i', 'e', 'l', 'd', 's'],
        ],
        json_object_view(m)[seq!['l', 'e', 'v', 'e', 'l']] == JsonView::Str(level_label(metadata_level(*meta))),
        metadata_file(*meta) is None ==> json_object_view(m)[seq!['f', 'i', 'l', 'e']] == JsonView::Null,
        metadata_file(*meta) matches Some(f) ==> json_object_view(m)[seq!['f', 'i', 'l', 'e']] == JsonView::Str(f),
        json_object_view(m)[seq!['t', 'a', 'r', 'g', 'e', 't']] == JsonView::Str(metadata_target(*meta)),
        metadata_line(*meta) is None ==> json_object_view(m)[seq!['l', 'i', 'n', 'e']] == JsonView::Null,
        metadata_line(*meta) matches Some(n) ==> json_object_view(m)[seq!['l', 'i', 'n', 'e']] == JsonView::Int(n as int),
        json_object_view(m)[seq!['n', 'a', 'm', 'e']] == JsonView::Str(metadata_name(*meta)),
        fields is None ==> json_object_view(m)[seq!['f', 'i', 'e', 'l', 'd', 's']] == JsonView::Null,
        fields matches Some(fm) ==> json_object_view(m)[seq!['f', 'i', 'e', 'l', 'd', 's']] == JsonView::Object(json_object_view(fm)),
{
    let level = level_as_str(meta_level(meta));
    let file = meta_file(meta);
    let target = meta_target(meta);
    let line = meta_line(meta);
    let name = meta_name(meta);
    span_object_from_parts(level, file, target, line, name, fields)
}

/// The JSON object of a span with this metadata, whose recorded fields
/// (if any were recorded) are written as `fields`.
pub open spec fn span_object_spec(meta: tracing::Metadata<'static>, fields: JsonView) -> Map<Seq<char>, JsonView> {
    span_view(
        level_label(metadata_level(meta)),
        opt_chars_view(metadata_file(meta)),
        metadata_target(meta),
        opt_u32_view(metadata_line(meta)),
        metadata_name(meta),
        fields,
    )
}

/// How the fields recorded on a span, if any were, are written in its object.
pub open spec fn recorded_view(fields: Option<FieldVisitor>) -> JsonView {
    match fields {
        Some(v) => JsonView::Object(v@),
        None => JsonView::Null,
    }
}

/// The JSON objects of a chain of spans, in the order given (from the root
/// span down, as the layer lists them): each from the span's metadata and
/// the fields recorded on it, if any were.
pub fn span_objects(spans: &Vec<(&'static tracing::Metadata<'static>, Option<FieldVisitor>)>) -> (r: Vec<JsonMap>)
    ensures
        r.len() == spans.len(),
        forall|i: int|
            0 <= i < spans.len() ==> json_object_view(#[trigger] r@[i]) == span_object_spec(
                *spans@[i].0,
                recorded_view(spans@[i].1),
            ),
        forall|i: int| 0 <= i < spans.len() ==> {
            let v = json_object_view(#[trigger] r@[i]);
            let meta = *spans@[i].0;
            &&& v.dom() == set![
                seq!['l', 'e', 'v', 'e', 'l'],
                seq!['f', 'i', 'l', 'e'],
                seq!['t', 'a', 'r', 'g', 'e', 't'],
                seq!['l', 'i', 'n', 'e'],
                seq!['n', 'a', 'm', 'e'],
                seq!['f', 'i', 'e', 'l', 'd', 's'],
            ]
            &&& v[seq!['l', 'e', 'v', 'e', 'l']] == JsonView::Str(level_label(metadata_level(meta)))
            &&& (metadata_file(meta) is None ==> v[seq!['f', 'i', 'l', 'e']] == JsonView::Null)
            &&& (metadata_file(meta) matches Some(f) ==> v[seq!['f', 'i', 'l', 'e']] == JsonView::Str(f))
            &&& v[seq!['t', 'a', 'r', 'g', 'e', 't']] == JsonView::Str(metadata_target(meta))
            &&& (metadata_line(meta) is None ==> v[seq!['l', 'i', 'n', 'e']] == JsonView::Null)
            &&& (metadata_line(meta) matches Some(n) ==> v[seq!['l', 'i', 'n', 'e']] == JsonView::Int(n as int))
            &&& v[seq!['n', 'a', 'm', 'e']] == JsonView::Str(metadata_name(meta))
            &&& (spans@[i].1 is None ==> v[seq!['f', 'i', 'e', 'l', 'd', 's']] == JsonView::Null)
            &&& (spans@[i].1 matches Some(fv) ==> v[seq!['f', 'i', 'e', 'l', 'd', 's']] == JsonView::Object(fv@))
        },
{
    let mut out: Vec<JsonMap> = Vec::new();
    let mut i: usize = 0;
    while i < spans.len()
        invariant
            i <= spans.len(),
            out.len() == i,
            forall|j: int|
                0 <= j < i ==> json_object_view(#[trigger] out@[j]) == span_object_spec(
                    *spans@[j].0,
                    recorded_view(spans@[j].1),
                ),
        decreases spans.len() - i,
    {
        let (meta, recorded) = &spans[i];
        let fields = match recorded {
            Some(v) => Some(v.clone().into_map()),
            None => None,
        };
        out.push(span_object(meta, fields));
        i = i + 1;
    }
    assert forall|i: int| 0 <= i < spans.len() implies {
        let v = json_object_view(#[trigger] out@[i]);
        let meta = *spans@[i].0;
        &&& v.dom() == set![
                seq!['l', 'e', 'v', 'e', 'l'],
                seq!['f', 'i', 'l', 'e'],
                seq!['t', 'a', 'r', 'g', 'e', 't'],
                seq!['l', 'i', 'n', 'e'],
                seq!['n', 'a', 'm', 'e'],
                seq!['f', 'i', 'e', 'l', 'd', 's'],
            ]
        &&& v[seq!['l', 'e', 'v', 'e', 'l']] == JsonView::Str(level_label(metadata_level(meta)))
        &&& (metadata_file(meta) is None ==> v[seq!['f', 'i', 'l', 'e']] == JsonView::Null)
        &&& (metadata_file(meta) matches Some(f) ==> v[seq!['f', 'i', 'l', 'e']] == JsonView::Str(f))
        &&& v[seq!['t', 'a', 'r', 'g', 'e', 't']] == JsonView::Str(metadata_target(meta))
        &&& (metadata_line(meta) is None ==> v[seq!['l', 'i', 'n', 'e']] == JsonView::Null)
        &&& (metadata_line(meta) matches Some(n) ==> v[seq!['l', 'i', 'n', 'e']] == JsonView::Int(n as int))
        &&& v[seq!['n', 'a', 'm', 'e']] == JsonView::Str(metadata_name(meta))
        &&& (spans@[i].1 is None ==> v[seq!['f', 'i', 'e', 'l', 'd', 's']] == JsonView::Null)
        &&& (spans@[i].1 matches Some(fv) ==> v[seq!['f', 'i', 'e', 'l', 'd', 's']] == JsonView::Object(fv@))
    } by {
        let meta = *spans@[i].0;
        lemma_span_view_entries(
            level_label(metadata_level(meta)),
            opt_chars_view(metadata_file(meta)),
            metadata_target(meta),
            opt_u32_view(metadata_line(meta)),
            metadata_name(meta),
            recorded_view(spans@[i].1),
        );
    }
    out
}

} // verus!
