//! Building blocks for tracing layers that hand each event to a callback,
//! and an owned, sendable form of the events and of their parent spans.
pub mod event;
pub mod fields;
pub mod json;
pub mod layer;
pub mod layer_fn;
pub mod level;
pub mod metadata;

pub use event::{OwnedEvent, OwnedEventWithSpans};
pub use fields::FieldVisitor;
pub use json::JsonMap;
pub use layer::{callback_layer, callback_layer_with_spans, CallbackLayer, CallbackLayerWithSpan};
pub use level::TracingLevel;
