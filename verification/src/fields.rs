//! Collects the fields recorded on an event or a span into a JSON object.
use vstd::prelude::*;
use crate::json::{
    json_from_bool, json_from_i64, json_from_str, json_from_string, json_from_u64, json_map_clone, json_map_insert,
    json_map_new, json_object_view, json_value_view, JsonMap, JsonView,
};

verus! {

/// Gathers field values into a JSON object, keyed by the fields' names.
/// A field recorded twice keeps the value recorded last.
pub struct FieldVisitor {
    map: JsonMap,
}

impl View for FieldVisitor {
    type V = Map<Seq<char>, JsonView>;

    closed spec fn view(&self) -> Map<Seq<char>, JsonView> {
        json_object_view(self.map)
    }
}

impl FieldVisitor {
    /// A visitor that has recorded nothing yet.
    pub fn new() -> (r: Self)
        ensures
            r@ =~= Map::<Seq<char>, JsonView>::empty(),
    {
        FieldVisitor { map: json_map_new() }
    }

    /// Records a boolean field.
    pub fn record_bool(&mut self, name: &str, value: bool)
        ensures
            final(self)@ == old(self)@.insert(name@, JsonView::Bool(value)),
    {
        json_map_insert(&mut self.map, String::from_str(name), json_from_bool(value));
    }

    /// Records a signed integer field.
    pub fn record_i64(&mut self, name: &str, value: i64)
        ensures
            final(self)@ == old(self)@.insert(name@, JsonView::Int(value as int)),
    {
        json_map_insert(&mut self.map, String::from_str(name), json_from_i64(value));
    }

    /// Records an unsigned integer field.
    pub fn record_u64(&mut self, name: &str, value: u64)
        ensures
            final(self)@ == old(self)@.insert(name@, JsonView::Int(value as int)),
    {
        json_map_insert(&mut self.map, String::from_str(name), json_from_u64(value));
    }

    /// Records a string field.
    pub fn record_str(&mut self, name: &str, value: &str)
        ensures
            final(self)@ == old(self)@.insert(name@, JsonView::Str(value@)),
    {
        json_map_insert(&mut self.map, String::from_str(name), json_from_str(value));
    }

    /// Records a field by the text that its `Debug` formatting gave.
    pub fn record_debug(&mut self, name: &str, text: String)
        ensures
            final(self)@ == old(self)@.insert(name@, JsonView::Str(text@)),
    {
        json_map_insert(&mut self.map, String::from_str(name), json_from_string(text));
    }

    /// Records a field whose value is already a JSON value.
    pub fn record_value(&mut self, name: &str, value: serde_json::Value)
        ensures
            final(self)@ == old(self)@.insert(name@, json_value_view(value)),
    {
        json_map_insert(&mut self.map, String::from_str(name), value);
    }

    /// The JSON object of the recorded fields.
    pub fn into_map(self) -> (m: JsonMap)
        ensures
            json_object_view(m) == self@,
    {
        self.map
    }
}

impl Clone for FieldVisitor {
    /// A visitor that holds the same fields.
    fn clone(&self) -> (r: Self)
        ensures
            r@ == self@,
    {
        FieldVisitor { map: json_map_clone(&self.map) }
    }
}

impl Default for FieldVisitor {
    /// A visitor that has recorded nothing yet.
    fn default() -> (r: Self)
        ensures
            r@ =~= Map::<Seq<char>, JsonView>::empty(),
    {
        Self::new()
    }
}

/// Recording a field a second time replaces the value recorded first: the
/// visitor then holds what it would hold had only the second value been
/// recorded, and the other fields stay as they were.
pub proof fn lemma_last_record_wins(
    before: FieldVisitor,
    between: FieldVisitor,
    after: FieldVisitor,
    name: Seq<char>,
    first: JsonView,
    second: JsonView,
)
    requires
        between@ == before@.insert(name, first),
        after@ == between@.insert(name, second),
    ensures
        after@ == before@.insert(name, second),
        after@[name] == second,
        forall|k: Seq<char>| k != name ==> #[trigger] after@.contains_key(k) == before@.contains_key(k),
{
    assert(after@ =~= before@.insert(name, second));
}

} // verus!
