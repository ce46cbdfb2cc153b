use pyo3::types::PyAnyMethods;
use python_tauri::dispatch::{
    callback_outcome, command, command_response, command_result, handle_py_command, invoke,
    invoke_on_channel, plan_call, plan_channel_command, plan_command, ChannelFailure,
};
use python_tauri::host::HostValue;
use python_tauri::registry::{add_command_handler, on_command, CallbackRegistry};
use python_tauri::value::{Number, StructuredValue};
use serde_json::Value;

type Handle = pyo3::Py<pyo3::PyAny>;

fn builtin_for_dispatch(name: &str) -> Handle {
    pyo3::Python::with_gil(|py| py.import("builtins").unwrap().getattr(name).unwrap().unbind())
}

fn json_loads() -> Handle {
    pyo3::Python::with_gil(|py| py.import("json").unwrap().getattr("loads").unwrap().unbind())
}

fn another(handle: &Handle) -> Handle {
    pyo3::Python::with_gil(|py| handle.clone_ref(py))
}

fn as_integer(object: &Handle) -> i64 {
    pyo3::Python::with_gil(|py| object.extract::<i64>(py).unwrap())
}

fn as_string(object: &Handle) -> String {
    pyo3::Python::with_gil(|py| object.extract::<String>(py).unwrap())
}

/// Reads a host object through every probe, as the program around the
/// library does.
fn probe(object: &Handle) -> HostValue {
    pyo3::Python::with_gil(|py| HostValue {
        is_none: object.is_none(py),
        as_bool: object.extract::<bool>(py).ok(),
        as_int: object.extract::<i64>(py).ok(),
        as_float: object.extract::<f64>(py).ok().map(f64::to_bits),
        as_text: object.extract::<String>(py).ok(),
        as_list: object
            .extract::<Vec<Handle>>(py)
            .ok()
            .map(|items| items.iter().map(probe).collect()),
        as_map: object
            .extract::<std::collections::HashMap<String, Handle>>(py)
            .ok()
            .map(|entries| entries.iter().map(|(k, v)| (k.clone(), probe(v))).collect()),
        repr: format!("{:?}", object),
    })
}

fn invocation(name: &str) -> Value {
    let mut members = serde_json::Map::new();
    members.insert("command".to_string(), Value::String(name.to_string()));
    members.insert("count".to_string(), Value::Number(serde_json::Number::from(3)));
    Value::Object(members)
}

fn unknown_host(repr: &str) -> HostValue {
    HostValue {
        is_none: false,
        as_bool: None,
        as_int: None,
        as_float: None,
        as_text: None,
        as_list: None,
        as_map: None,
        repr: repr.to_string(),
    }
}

#[test]
fn missing_command_is_refused() {
    let registry: CallbackRegistry<u8> = CallbackRegistry::new();
    let args = Value::Object(serde_json::Map::new());
    assert_eq!(
        handle_py_command(&registry, &args).unwrap_err(),
        "Missing command name in args"
    );
}

#[test]
fn command_of_the_wrong_type_is_refused() {
    let mut registry: CallbackRegistry<u8> = CallbackRegistry::new();
    add_command_handler(&mut registry, "3".to_string(), builtin_for_dispatch("len"));
    let mut members = serde_json::Map::new();
    members.insert("command".to_string(), Value::Number(serde_json::Number::from(3)));
    for args in [
        Value::Object(members),
        Value::Null,
        Value::Bool(true),
        Value::String("command".to_string()),
        Value::Array(vec![Value::String("command".to_string())]),
    ] {
        assert_eq!(
            handle_py_command(&registry, &args).unwrap_err(),
            "Missing command name in args"
        );
    }
}

#[test]
fn unregistered_command_is_refused_by_name() {
    let mut registry: CallbackRegistry<u8> = CallbackRegistry::new();
    add_command_handler(&mut registry, "other".to_string(), builtin_for_dispatch("len"));
    assert_eq!(
        handle_py_command(&registry, &invocation("greet")).unwrap_err(),
        "Command 'greet' not registered"
    );
    assert_eq!(
        handle_py_command(&registry, &invocation("")).unwrap_err(),
        "Command '' not registered"
    );
}

#[test]
fn plan_holds_the_handler_and_the_whole_invocation() {
    let mut registry: CallbackRegistry<u8> = CallbackRegistry::new();
    let len = builtin_for_dispatch("len");
    add_command_handler(&mut registry, "measure".to_string(), another(&len));
    let args = invocation("measure");
    let plan = plan_command(&registry, &args).unwrap();
    assert!(plan.handler.is(&len));
    assert_eq!(plan.payload, serde_json::to_string(&args).unwrap());
    assert_eq!(plan.payload, "{\"command\":\"measure\",\"count\":3}");
}

#[test]
fn plan_refuses_like_the_dispatch() {
    let registry: CallbackRegistry<u8> = CallbackRegistry::new();
    assert_eq!(
        plan_command(&registry, &Value::Null).err(),
        Some("Missing command name in args".to_string())
    );
    assert_eq!(
        plan_command(&registry, &invocation("x")).err(),
        Some("Command 'x' not registered".to_string())
    );
}

#[test]
fn handler_gets_the_json_text_of_the_invocation() {
    let mut registry: CallbackRegistry<u8> = CallbackRegistry::new();
    // `str(text)` hands the text back.
    add_command_handler(&mut registry, "echo".to_string(), builtin_for_dispatch("str"));
    let args = invocation("echo");
    let returned = handle_py_command(&registry, &args).unwrap();
    assert_eq!(as_string(&returned), "{\"command\":\"echo\",\"count\":3}");
}

#[test]
fn dispatch_returns_what_the_handler_returned() {
    let mut registry: CallbackRegistry<u8> = CallbackRegistry::new();
    add_command_handler(&mut registry, "measure".to_string(), builtin_for_dispatch("len"));
    let returned = handle_py_command(&registry, &invocation("measure")).unwrap();
    assert_eq!(as_integer(&returned), 31);
}

#[test]
fn dispatch_calls_only_the_latest_handler() {
    let mut registry: CallbackRegistry<u8> = CallbackRegistry::new();
    add_command_handler(&mut registry, "f".to_string(), builtin_for_dispatch("len"));
    add_command_handler(&mut registry, "f".to_string(), builtin_for_dispatch("str"));
    let returned = handle_py_command(&registry, &invocation("f")).unwrap();
    assert_eq!(as_string(&returned), "{\"command\":\"f\",\"count\":3}");
}

#[test]
fn raising_handler_gives_an_error_with_the_hosts_words() {
    let mut registry: CallbackRegistry<u8> = CallbackRegistry::new();
    // `int(text)` raises a ValueError on text that is no number.
    add_command_handler(&mut registry, "parse".to_string(), builtin_for_dispatch("int"));
    let message = handle_py_command(&registry, &invocation("parse")).unwrap_err();
    assert!(message.starts_with("Python callback error: ValueError: "), "{}", message);
}

#[test]
fn response_is_the_structured_form() {
    let mut host = unknown_host("5");
    host.as_int = Some(5);
    assert_eq!(command_response(&host), Ok(Some(StructuredValue::Number(Number::Int(5)))));
    let mut none = unknown_host("None");
    none.is_none = true;
    assert_eq!(command_response(&none), Ok(Some(StructuredValue::Null)));
}

#[test]
fn response_to_an_unrecognized_value_is_an_error() {
    assert_eq!(
        command_response(&unknown_host("Py(0x1)")),
        Err("Failed to convert Python result: TypeError: Cannot convert Python object to JSON: Py(0x1)"
            .to_string())
    );
}

#[test]
fn dispatch_from_invocation_to_response() {
    let mut registry: CallbackRegistry<u8> = CallbackRegistry::new();
    add_command_handler(&mut registry, "parse".to_string(), json_loads());
    let returned = handle_py_command(&registry, &invocation("parse")).unwrap();
    let response = command_response(&probe(&returned)).unwrap().unwrap();
    match response {
        StructuredValue::Object(mut fields) => {
            fields.sort_by(|a, b| a.0.cmp(&b.0));
            assert_eq!(
                fields,
                vec![
                    ("command".to_string(), StructuredValue::String("parse".to_string())),
                    ("count".to_string(), StructuredValue::Number(Number::Int(3))),
                ]
            );
        }
        other => panic!("expected a map, got {:?}", other),
    }
}

#[test]
fn dispatch_of_a_handler_that_returns_an_object_without_structured_form() {
    let mut registry: CallbackRegistry<u8> = CallbackRegistry::new();
    // `type(text)` returns the class `str`, which has no structured form.
    add_command_handler(&mut registry, "kind".to_string(), builtin_for_dispatch("type"));
    let returned = handle_py_command(&registry, &invocation("kind")).unwrap();
    let message = command_response(&probe(&returned)).unwrap_err();
    assert!(
        message.starts_with(
            "Failed to convert Python result: TypeError: Cannot convert Python object to JSON: Py(0x"
        ),
        "{}",
        message
    );
}

#[test]
fn channel_without_callback_fails() {
    let registry: CallbackRegistry<u8> = CallbackRegistry::new();
    let failure = command(&registry, &invocation("anything")).unwrap_err();
    assert_eq!(failure, ChannelFailure::NoCallback);
    assert_eq!(failure.message(), "Please register command callback using on_command()");
}

#[test]
fn channel_calls_its_callback_with_the_json_text() {
    let mut registry: CallbackRegistry<u8> = CallbackRegistry::new();
    on_command(&mut registry, builtin_for_dispatch("str"));
    let returned = command(&registry, &Value::Array(vec![Value::Bool(true), Value::Null])).unwrap();
    assert_eq!(as_string(&returned), "[true,null]");
}

#[test]
fn channel_callback_is_replaced() {
    let mut registry: CallbackRegistry<u8> = CallbackRegistry::new();
    on_command(&mut registry, builtin_for_dispatch("str"));
    on_command(&mut registry, builtin_for_dispatch("len"));
    let returned = command(&registry, &Value::String("abc".to_string())).unwrap();
    assert_eq!(as_integer(&returned), 5);
}

#[test]
fn channel_callback_that_raises_fails_as_raised() {
    let mut registry: CallbackRegistry<u8> = CallbackRegistry::new();
    on_command(&mut registry, builtin_for_dispatch("int"));
    match command(&registry, &Value::String("x".to_string())).unwrap_err() {
        ChannelFailure::Raised(words) => {
            assert!(words.starts_with("ValueError: "), "{}", words);
            assert_eq!(ChannelFailure::Raised(words.clone()).message(), words);
        }
        other => panic!("expected Raised, got {:?}", other),
    }
}

#[test]
fn channel_result_is_the_structured_form() {
    let mut host = unknown_host("'x'");
    host.as_text = Some("x".to_string());
    assert_eq!(command_result(&host), Ok(StructuredValue::String("x".to_string())));
    let mut none = unknown_host("None");
    none.is_none = true;
    assert_eq!(command_result(&none), Ok(StructuredValue::Null));
}

#[test]
fn channel_result_without_structured_form_is_an_error() {
    assert_eq!(
        command_result(&unknown_host("Py(0x2)")),
        Err("Failed to convert Python result: TypeError: \
             Cannot convert Python object to JSON: Py(0x2)"
            .to_string())
    );
}

#[test]
fn channel_callback_that_returns_an_object_without_structured_form() {
    let mut registry: CallbackRegistry<u8> = CallbackRegistry::new();
    // `type(text)` returns the class `str`, which has no structured form.
    on_command(&mut registry, builtin_for_dispatch("type"));
    let returned = command(&registry, &invocation("kind")).unwrap();
    let message = command_result(&probe(&returned)).unwrap_err();
    assert!(
        message.starts_with("Failed to convert Python result: TypeError: Cannot convert"),
        "{}",
        message
    );
}

#[test]
fn channel_plan_holds_the_callback_and_the_json_text() {
    let mut registry: CallbackRegistry<u8> = CallbackRegistry::new();
    let len = builtin_for_dispatch("len");
    on_command(&mut registry, another(&len));
    let call = plan_channel_command(&registry, &invocation("anything")).unwrap();
    assert!(call.handler.is(&len));
    assert_eq!(call.payload, "{\"command\":\"anything\",\"count\":3}");
    assert_eq!(as_integer(&invoke_on_channel(&call).unwrap()), 32);
}

#[test]
fn channel_plan_without_callback_fails() {
    let registry: CallbackRegistry<u8> = CallbackRegistry::new();
    assert_eq!(
        plan_channel_command(&registry, &Value::Null).err(),
        Some(ChannelFailure::NoCallback)
    );
}

#[test]
fn plan_for_a_missing_name() {
    let mut registry: CallbackRegistry<u8> = CallbackRegistry::new();
    add_command_handler(&mut registry, "greet".to_string(), builtin_for_dispatch("len"));
    assert_eq!(
        plan_call(&registry, None, Ok("{}".to_string())).err(),
        Some("Missing command name in args".to_string())
    );
    assert_eq!(
        plan_call(&registry, None, Err("no text".to_string())).err(),
        Some("Missing command name in args".to_string())
    );
}

#[test]
fn plan_for_an_invocation_without_text() {
    let mut registry: CallbackRegistry<u8> = CallbackRegistry::new();
    add_command_handler(&mut registry, "greet".to_string(), builtin_for_dispatch("len"));
    assert_eq!(
        plan_call(&registry, Some("greet".to_string()), Err("key must be a string".to_string()))
            .err(),
        Some("Failed to serialize args: key must be a string".to_string())
    );
    assert_eq!(
        plan_call(&registry, Some("nobody".to_string()), Err("bad".to_string())).err(),
        Some("Failed to serialize args: bad".to_string())
    );
}

#[test]
fn plan_for_an_unregistered_name() {
    let mut registry: CallbackRegistry<u8> = CallbackRegistry::new();
    add_command_handler(&mut registry, "greet".to_string(), builtin_for_dispatch("len"));
    for name in ["Greet", "greet ", "", "it's"] {
        assert_eq!(
            plan_call(&registry, Some(name.to_string()), Ok("{}".to_string())).err(),
            Some(format!("Command '{}' not registered", name))
        );
    }
}

#[test]
fn plan_for_a_registered_name() {
    let mut registry: CallbackRegistry<u8> = CallbackRegistry::new();
    let len = builtin_for_dispatch("len");
    add_command_handler(&mut registry, "other".to_string(), builtin_for_dispatch("str"));
    add_command_handler(&mut registry, "greet".to_string(), another(&len));
    let call = plan_call(&registry, Some("greet".to_string()), Ok("[1]".to_string())).unwrap();
    assert!(call.handler.is(&len));
    assert_eq!(call.payload, "[1]");
}

#[test]
fn what_the_handler_returned_is_handed_on() {
    let len = builtin_for_dispatch("len");
    let outcome = callback_outcome(Ok(another(&len))).unwrap();
    assert!(outcome.is(&len));
}

#[test]
fn what_the_handler_raised_is_told_in_the_hosts_words() {
    assert_eq!(
        callback_outcome(Err("ValueError: bad".to_string())).unwrap_err(),
        "Python callback error: ValueError: bad"
    );
    assert_eq!(callback_outcome(Err(String::new())).unwrap_err(), "Python callback error: ");
}

#[test]
fn planned_call_is_made_with_its_payload() {
    let mut registry: CallbackRegistry<u8> = CallbackRegistry::new();
    add_command_handler(&mut registry, "echo".to_string(), builtin_for_dispatch("str"));
    let call = plan_command(&registry, &invocation("echo")).unwrap();
    assert_eq!(as_string(&invoke(&call).unwrap()), "{\"command\":\"echo\",\"count\":3}");
}
