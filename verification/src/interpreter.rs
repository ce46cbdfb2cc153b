//! The scripting host's interpreter: handles to its objects and the calls
//! that the bridge makes through them.
//!
//! Everything here is taken on trust. What a call into the interpreter
//! returns depends on the interpreter's state, so no contract here promises
//! a result; the functions that use these calls say what they do with every
//! outcome.

use pyo3::types::{PyAnyMethods, PyDictMethods, PyListMethods};
use std::fmt::Write;
use vstd::prelude::*;

verus! {

/// `pyo3::Py`, a counted reference to an object of the host; nothing of it
/// is visible to the verifier.
#[verifier::external_type_specification]
#[verifier::external_body]
#[verifier::reject_recursive_types(T)]
pub struct ExPy<T>(pyo3::Py<T>);

/// `pyo3::PyAny`, the type of any object of the host.
#[verifier::external_type_specification]
#[verifier::external_body]
pub struct ExPyAny(pyo3::PyAny);

/// `pyo3::PyErr`, an error that the host raised.
#[verifier::external_type_specification]
#[verifier::external_body]
pub struct ExPyErr(pyo3::PyErr);

/// A counted reference to an object of the host, most often a callable.
pub type CallbackHandle = pyo3::Py<pyo3::PyAny>;

/// What the host raised.
pub type HostError = pyo3::PyErr;

/// `Py::clone_ref`, under the interpreter's lock: one more reference to the
/// same object. The contract claims that the new handle equals the old one.
#[verifier::external_body]
pub(crate) fn clone_handle(handle: &CallbackHandle) -> (copy: CallbackHandle)
    ensures
        copy == *handle,
{
    pyo3::Python::with_gil(|py| handle.clone_ref(py))
}

/// `Py::call0`, under the interpreter's lock: calls the object without
/// arguments. Nothing is claimed of what comes back.
#[verifier::external_body]
pub(crate) fn call_without_arguments(callable: &CallbackHandle) -> (outcome: Result<
    CallbackHandle,
    HostError,
>) {
    pyo3::Python::with_gil(|py| callable.call0(py))
}

/// `Py::call1`, under the interpreter's lock: calls the object with one
/// argument, a host string made of `text` by `PyString::new`. Nothing is
/// claimed of what comes back.
#[verifier::external_body]
pub(crate) fn call_with_text(callable: &CallbackHandle, text: &str) -> (outcome: Result<
    CallbackHandle,
    HostError,
>) {
    pyo3::Python::with_gil(|py| callable.call1(py, (pyo3::types::PyString::new(py, text),)))
}

/// `PyErr`'s `Display`: the name of the error's type, then its message.
/// Nothing is claimed of the text.
#[verifier::external_body]
pub(crate) fn error_text(error: &HostError) -> (text: String) {
    let mut text = String::new();
    let _ = write!(text, "{}", error);
    text
}

/// `Py::getattr`, under the interpreter's lock: the attribute of the object
/// under a name. Nothing is claimed of what comes back.
#[verifier::external_body]
pub(crate) fn get_attribute(object: &CallbackHandle, name: &str) -> (outcome: Result<
    CallbackHandle,
    HostError,
>) {
    pyo3::Python::with_gil(|py| object.getattr(py, name))
}

/// `Py::extract` for a string, under the interpreter's lock. Nothing is
/// claimed of what comes back.
#[verifier::external_body]
pub(crate) fn extract_text(object: &CallbackHandle) -> (outcome: Result<String, HostError>) {
    pyo3::Python::with_gil(|py| object.extract::<String>(py))
}

/// `Python::import`, under the interpreter's lock: the host's module of that
/// name. Nothing is claimed of what comes back.
#[verifier::external_body]
pub(crate) fn import_module(name: &str) -> (outcome: Result<CallbackHandle, HostError>) {
    pyo3::Python::with_gil(|py| py.import(name).map(|module| module.into_any().unbind()))
}

/// `Py::call_method1`, under the interpreter's lock: calls the object's
/// method of that name with one argument. Nothing is claimed of what comes
/// back.
#[verifier::external_body]
pub(crate) fn call_method_with(
    object: &CallbackHandle,
    name: &str,
    argument: &CallbackHandle,
) -> (outcome: Result<CallbackHandle, HostError>) {
    pyo3::Python::with_gil(|py| object.call_method1(py, name, (argument.clone_ref(py),)))
}

/// `Bound::downcast` to a dictionary, then `PyDict::keys`, under the
/// interpreter's lock: the keys of the object if it is a dictionary of the
/// host, the host's error if it is none. Nothing is claimed of what comes
/// back.
#[verifier::external_body]
pub(crate) fn dictionary_keys(object: &CallbackHandle) -> (outcome: Result<
    Vec<CallbackHandle>,
    HostError,
>) {
    pyo3::Python::with_gil(|py| {
        let dictionary = object.bind(py).downcast::<pyo3::types::PyDict>()?;
        Ok(dictionary.keys().iter().map(pyo3::Bound::unbind).collect())
    })
}

} // verus!
