//! Layers that hand each event, after filtering, to a callback.
use vstd::prelude::*;
use crate::json::JsonMap;

verus! {

#[verifier::external_type_specification]
#[verifier::external_body]
pub struct ExEvent<'a>(tracing::Event<'a>);

/// The basis of all the layers of this library: it runs a callback on every
/// event that gets past the filters. Where the callback needs the parent
/// spans, use `CallbackLayerWithSpan`.
pub struct CallbackLayer<F> {
    callback: F,
}

impl<F: Fn(&tracing::Event<'_>)> CallbackLayer<F> {
    /// A layer that runs `callback` on each event.
    pub fn new(callback: F) -> (r: Self)
        ensures
            r.callback() == callback,
    {
        CallbackLayer { callback }
    }

    /// The callback that the layer runs.
    pub closed spec fn callback(&self) -> F {
        self.callback
    }

    /// Hands the event to the callback, once.
    pub fn on_event(&self, event: &tracing::Event<'_>)
        requires
            call_requires(self.callback(), (event,)),
        ensures
            call_ensures(self.callback(), (event,), ()),
    {
        (self.callback)(event)
    }
}

/// A layer that runs `callback` on each event.
pub fn callback_layer<F: Fn(&tracing::Event<'_>)>(callback: F) -> (r: CallbackLayer<F>)
    ensures
        r.callback() == callback,
{
    CallbackLayer::new(callback)
}

/// Like `CallbackLayer`, but the callback also gets the JSON objects of the
/// event's parent spans, from the root span down, when the event has any.
pub struct CallbackLayerWithSpan<F> {
    callback: F,
}

impl<F: Fn(&tracing::Event<'_>, Option<Vec<JsonMap>>)> CallbackLayerWithSpan<F> {
    /// A layer that runs `callback` on each event and its parent spans.
    pub fn new(callback: F) -> (r: Self)
        ensures
            r.callback() == callback,
    {
        CallbackLayerWithSpan { callback }
    }

    /// The callback that the layer runs.
    pub closed spec fn callback(&self) -> F {
        self.callback
    }

    /// Hands the event and its parent spans to the callback, once.
    pub fn on_event(&self, event: &tracing::Event<'_>, spans: Option<Vec<JsonMap>>)
        requires
            call_requires(self.callback(), (event, spans)),
        ensures
            call_ensures(self.callback(), (event, spans), ()),
    {
        (self.callback)(event, spans)
    }
}

/// A layer that runs `callback` on each event and its parent spans.
pub fn callback_layer_with_spans<F: Fn(&tracing::Event<'_>, Option<Vec<JsonMap>>)>(
    callback: F,
) -> (r: CallbackLayerWithSpan<F>)
    ensures
        r.callback() == callback,
{
    CallbackLayerWithSpan::new(callback)
}

} // verus!
