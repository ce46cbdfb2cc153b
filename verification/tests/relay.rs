use pyo3::types::PyAnyMethods;
use python_tauri::registry::{set_listener_callback, CallbackRegistry};
use python_tauri::relay::{event_channel, relay_event, Delivery};

fn builtin_for_relay(name: &str) -> pyo3::Py<pyo3::PyAny> {
    pyo3::Python::with_gil(|py| py.import("builtins").unwrap().getattr(name).unwrap().unbind())
}

#[test]
fn relay_listens_on_the_webview_channel() {
    assert_eq!(event_channel(), "webview_emit");
}

#[test]
fn without_listener_nothing_is_delivered() {
    let registry: CallbackRegistry<u8> = CallbackRegistry::new();
    assert_eq!(relay_event(&registry, "{}"), Delivery::NoListener);
}

#[test]
fn event_is_delivered_to_the_listener() {
    let mut registry: CallbackRegistry<u8> = CallbackRegistry::new();
    set_listener_callback(&mut registry, builtin_for_relay("len"));
    assert_eq!(relay_event(&registry, "payload"), Delivery::Delivered);
}

#[test]
fn relay_stays_live_after_a_failure() {
    let mut registry: CallbackRegistry<u8> = CallbackRegistry::new();
    // `int(text)` raises on text that is no number and returns on text that is.
    set_listener_callback(&mut registry, builtin_for_relay("int"));
    match relay_event(&registry, "not a number") {
        Delivery::Failed(words) => assert!(words.starts_with("ValueError: "), "{}", words),
        other => panic!("expected a failure, got {:?}", other),
    }
    assert_eq!(relay_event(&registry, "42"), Delivery::Delivered);
    match relay_event(&registry, "again not") {
        Delivery::Failed(_) => {}
        other => panic!("expected a failure, got {:?}", other),
    }
    assert_eq!(relay_event(&registry, "7"), Delivery::Delivered);
}
