//! The event relay: hands each event of the webview to the callback for
//! events, if one is registered.
//!
//! A delivery never fails towards the shell. What the callback raised is
//! handed back as text, to be logged, and the relay goes on: it keeps no
//! state, so whether an event is delivered depends on the registry alone,
//! never on how an earlier delivery ended.

use crate::interpreter::{call_with_text, error_text, CallbackHandle};
use crate::registry::{listener_callback, CallbackRegistry};
use vstd::prelude::*;

verus! {

/// The channel of the shell's event bus over which the webview's events come.
pub fn event_channel() -> (name: &'static str)
    ensures
        name@ == "webview_emit"@,
{
    "webview_emit"
}

/// How the delivery of one event ended.
#[derive(Debug, PartialEq, Eq)]
pub enum Delivery {
    /// No callback is registered: nothing was called.
    NoListener,
    /// The callback was called and returned.
    Delivered,
    /// The callback was called and raised; the host's words.
    Failed(String),
}

/// Delivers one event to a callback: calls it with the event's payload as
/// its one argument, if there is a callback.
pub fn deliver(callback: Option<CallbackHandle>, payload: &str) -> (delivery: Delivery)
    ensures
        delivery is NoListener <==> callback is None,
{
    match callback {
        None => Delivery::NoListener,
        Some(listener) => match call_with_text(&listener, payload) {
            Ok(_) => Delivery::Delivered,
            Err(error) => Delivery::Failed(error_text(&error)),
        },
    }
}

/// Delivers one event: looks up the callback for events and hands the event
/// to it with [`deliver`]. The event is delivered whenever a callback is
/// registered, however earlier deliveries ended.
pub fn relay_event<A>(registry: &CallbackRegistry<A>, payload: &str) -> (delivery: Delivery)
    ensures
        delivery is NoListener <==> registry@.listener_callback is None,
{
    deliver(listener_callback(registry), payload)
}

} // verus!
