//! Command dispatch: from an invocation to the call of the handler that is
//! registered for it, and from what the handler returned to the response.
//!
//! An invocation is a JSON object with a string member `command`, the name
//! of the command. The handler gets the JSON text of the whole invocation as
//! its one argument.

use crate::host::{conversion_message_prefix, ConversionError, HostValue};
use crate::interpreter::{call_with_text, error_text, CallbackHandle};
use crate::json::{json_text, serialization_error_text, serialize, string_member, string_members};
use crate::python_utils::{coerce, pyany_to_json_value};
use crate::registry::{command_callback, get_command_handler, CallbackRegistry, RegistryModel};
use crate::value::StructuredValue;
use vstd::prelude::*;

verus! {

/// The key of the member that names the command.
pub open spec fn command_key() -> Seq<char> {
    "command"@
}

/// The error of an invocation without a command name.
pub open spec fn missing_command_message() -> Seq<char> {
    "Missing command name in args"@
}

/// The error of an invocation whose command has no handler.
pub open spec fn not_registered_message(name: Seq<char>) -> Seq<char> {
    "Command '"@ + name + "' not registered"@
}

/// What the error of an invocation that has no JSON text begins with.
pub open spec fn serialization_error_prefix() -> Seq<char> {
    "Failed to serialize args: "@
}

/// What the error of a handler that raised begins with.
pub open spec fn callback_error_prefix() -> Seq<char> {
    "Python callback error: "@
}

/// What the error of a result without structured form begins with: the
/// host's name for the kind of error included.
pub open spec fn conversion_error_prefix() -> Seq<char> {
    "Failed to convert Python result: TypeError: "@
}

/// The error of the single command channel without a callback.
pub open spec fn no_callback_message() -> Seq<char> {
    "Please register command callback using on_command()"@
}

/// Whether `text` begins with `prefix`.
pub open spec fn begins_with(text: Seq<char>, prefix: Seq<char>) -> bool {
    prefix.len() <= text.len() && text.subrange(0, prefix.len() as int) == prefix
}

/// Why an invocation is turned down before any handler is called.
pub enum Refusal {
    /// It has no string member `command`.
    MissingName,
    /// It has no JSON text.
    NotSerializable,
    /// No handler is registered under its command's name.
    NotRegistered,
}

/// The name of the command of an invocation that has one.
pub open spec fn command_name(args: serde_json::Value) -> Seq<char> {
    string_members(args)[command_key()]
}

/// Why the invocation is turned down, if it is. The name counts first, then
/// the text, then the registration.
pub open spec fn refusal<A>(registry: RegistryModel<A>, args: serde_json::Value) -> Option<
    Refusal,
> {
    if !string_members(args).contains_key(command_key()) {
        Some(Refusal::MissingName)
    } else if json_text(args) is None {
        Some(Refusal::NotSerializable)
    } else if !registry.command_handlers.contains_key(command_name(args)) {
        Some(Refusal::NotRegistered)
    } else {
        None
    }
}

/// Whether `message` is an error for the refusal.
pub open spec fn tells_refusal(why: Refusal, args: serde_json::Value, message: Seq<char>) -> bool {
    match why {
        Refusal::MissingName => message == missing_command_message(),
        Refusal::NotSerializable => begins_with(message, serialization_error_prefix()),
        Refusal::NotRegistered => message == not_registered_message(command_name(args)),
    }
}

/// A call that is due: the handler and the text to hand to it.
pub struct Invocation {
    pub handler: CallbackHandle,
    pub payload: String,
}

/// What is planned for a command of that name, if it has one, and for the
/// JSON text of its invocation, or else the serializer's words: the handler
/// registered under the name together with the text, or the error. The
/// name counts first, then the text, then the registration.
pub open spec fn planned<A>(
    registry: RegistryModel<A>,
    name: Option<Seq<char>>,
    text: Result<Seq<char>, Seq<char>>,
) -> Result<(CallbackHandle, Seq<char>), Seq<char>> {
    match name {
        None => Err(missing_command_message()),
        Some(command) => match text {
            Err(words) => Err(serialization_error_prefix() + words),
            Ok(payload) => if registry.command_handlers.contains_key(command) {
                Ok((registry.command_handlers[command], payload))
            } else {
                Err(not_registered_message(command))
            },
        },
    }
}

/// The views of a name that may be missing and of a text that may have
/// failed.
pub open spec fn name_view(name: Option<String>) -> Option<Seq<char>> {
    match name {
        Some(command) => Some(command@),
        None => None,
    }
}

/// The view of a text, or of the words said in its place.
pub open spec fn text_view(text: Result<String, String>) -> Result<Seq<char>, Seq<char>> {
    match text {
        Ok(payload) => Ok(payload@),
        Err(words) => Err(words@),
    }
}

/// Plans the call for what was read from an invocation: the name of its
/// command, if it has one, and its JSON text, or the serializer's words
/// where it has none. The plan is [`planned`].
pub fn plan_call<A>(
    registry: &CallbackRegistry<A>,
    name: Option<String>,
    text: Result<String, String>,
) -> (plan: Result<Invocation, String>)
    requires
        registry.wf(),
    ensures
        match planned(registry@, name_view(name), text_view(text)) {
            Ok((handler, payload)) => {
                &&& plan matches Ok(call)
                &&& call.handler == handler
                &&& call.payload@ == payload
            },
            Err(words) => plan matches Err(message) && message@ == words,
        },
{
    let command = match name {
        Some(command) => command,
        None => {
            return Err("Missing command name in args".to_owned());
        },
    };
    let payload = match text {
        Ok(payload) => payload,
        Err(words) => {
            return Err("Failed to serialize args: ".to_owned().concat(words.as_str()));
        },
    };
    match get_command_handler(registry, command.as_str()) {
        Some(handler) => Ok(Invocation { handler, payload }),
        None => Err("Command '".to_owned().concat(command.as_str()).concat("' not registered")),
    }
}

/// A command that has a name and a JSON text and no handler is turned down
/// by its name: the error is [`not_registered_message`] of the name, the
/// name standing in it as it was given.
pub proof fn lemma_unregistered_command_is_told_by_name<A>(
    registry: RegistryModel<A>,
    command: Seq<char>,
    payload: Seq<char>,
)
    requires
        !registry.command_handlers.contains_key(command),
    ensures
        planned(registry, Some(command), Ok::<Seq<char>, Seq<char>>(payload)) == Err::<
            (CallbackHandle, Seq<char>),
            Seq<char>,
        >(not_registered_message(command)),
        not_registered_message(command).subrange(
            "Command '"@.len() as int,
            ("Command '"@.len() + command.len()) as int,
        ) == command,
{
    assert(not_registered_message(command).subrange(
        "Command '"@.len() as int,
        ("Command '"@.len() + command.len()) as int,
    ) =~= command);
}

/// Decides what an invocation calls: the handler registered under the
/// invocation's command, with the invocation's JSON text; or the error that
/// tells why there is no such call. It reads the name and the text from the
/// invocation and plans with [`plan_call`].
pub fn plan_command<A>(registry: &CallbackRegistry<A>, args: &serde_json::Value) -> (plan: Result<
    Invocation,
    String,
>)
    requires
        registry.wf(),
    ensures
        match plan {
            Ok(call) => {
                &&& refusal(registry@, *args) is None
                &&& call.handler == registry@.command_handlers[command_name(*args)]
                &&& json_text(*args) == Some(call.payload@)
            },
            Err(message) => {
                &&& refusal(registry@, *args) matches Some(why)
                &&& tells_refusal(why, *args, message@)
            },
        },
{
    let name = string_member(args, "command");
    let text = match serialize(args) {
        Ok(text) => Ok(text),
        Err(error) => Err(serialization_error_text(&error)),
    };
    let plan = plan_call(registry, name, text);
    proof {
        if plan is Err && name is Some && text is Err {
            assert(plan->Err_0@.subrange(0, serialization_error_prefix().len() as int)
                =~= serialization_error_prefix());
        }
    }
    plan
}

/// How a call of a handler ended, for the dispatch: what the handler
/// returned as it is, and what it raised, given in the host's words, as the
/// error that begins with [`callback_error_prefix`] and goes on with those
/// words.
pub fn callback_outcome(ended: Result<CallbackHandle, String>) -> (outcome: Result<
    CallbackHandle,
    String,
>)
    ensures
        match ended {
            Ok(returned) => outcome == Ok::<CallbackHandle, String>(returned),
            Err(words) => outcome matches Err(message) && message@ == callback_error_prefix()
                + words@,
        },
{
    match ended {
        Ok(returned) => Ok(returned),
        Err(words) => Err("Python callback error: ".to_owned().concat(words.as_str())),
    }
}

/// Makes a call that is due: calls the handler with the payload as its one
/// argument, and gives how the call ended as [`callback_outcome`] does. The
/// result is what the handler returned, or, where it raised, an error that
/// begins with [`callback_error_prefix`] and goes on with the host's words.
pub fn invoke(call: &Invocation) -> (outcome: Result<CallbackHandle, String>)
    ensures
        outcome matches Err(message) ==> begins_with(message@, callback_error_prefix()),
{
    let ended = match call_with_text(&call.handler, call.payload.as_str()) {
        Ok(returned) => Ok(returned),
        Err(error) => Err(error_text(&error)),
    };
    let outcome = callback_outcome(ended);
    proof {
        if outcome is Err {
            assert(outcome->Err_0@.subrange(0, callback_error_prefix().len() as int)
                =~= callback_error_prefix());
        }
    }
    outcome
}

/// Dispatches an invocation as far as the handler's return: plans the call
/// with [`plan_command`] and makes it with [`invoke`].
///
/// An invocation that is turned down gives the error of the plan and calls
/// nothing. Otherwise the result is what the handler returned, or, where it
/// raised, an error that begins with [`callback_error_prefix`].
pub fn handle_py_command<A>(registry: &CallbackRegistry<A>, args: &serde_json::Value) -> (outcome:
    Result<CallbackHandle, String>)
    requires
        registry.wf(),
    ensures
        match refusal(registry@, *args) {
            Some(why) => outcome matches Err(message) && tells_refusal(why, *args, message@),
            None => outcome matches Err(message) ==> begins_with(
                message@,
                callback_error_prefix(),
            ),
        },
{
    match plan_command(registry, args) {
        Ok(call) => invoke(&call),
        Err(message) => Err(message),
    }
}

/// The error for a value without structured form: a fixed beginning, then
/// the message of the conversion error.
fn conversion_failure(error: &ConversionError) -> (message: String)
    ensures
        message@ == conversion_error_prefix() + conversion_message_prefix() + error.value@,
{
    let detail = error.message();
    let message = "Failed to convert Python result: TypeError: ".to_owned().concat(
        detail.as_str(),
    );
    assert(message@ =~= conversion_error_prefix() + conversion_message_prefix() + error.value@);
    message
}

/// The response to an invocation whose handler returned `returned`: the
/// structured form of the value, or, where it has none, the error that names
/// the value.
pub fn command_response(returned: &HostValue) -> (response: Result<Option<StructuredValue>, String>)
    ensures
        match coerce(returned@) {
            Ok(model) => response matches Ok(Some(value)) && value@ == model && value.wf(),
            Err(description) => response matches Err(message) && message@
                == conversion_error_prefix() + conversion_message_prefix() + description,
        },
{
    match pyany_to_json_value(returned) {
        Ok(value) => Ok(Some(value)),
        Err(error) => Err(conversion_failure(&error)),
    }
}

/// How a command on the single channel can fail.
#[derive(Debug, PartialEq, Eq)]
pub enum ChannelFailure {
    /// The invocation has no JSON text; the serializer's words.
    Serialization(String),
    /// No callback is registered for the channel.
    NoCallback,
    /// The callback raised; the host's words.
    Raised(String),
}

impl ChannelFailure {
    /// The words of the failure. Without a callback they are
    /// [`no_callback_message`].
    pub fn message(&self) -> (text: String)
        ensures
            match self {
                ChannelFailure::Serialization(detail) => text@ == detail@,
                ChannelFailure::NoCallback => text@ == no_callback_message(),
                ChannelFailure::Raised(detail) => text@ == detail@,
            },
    {
        match self {
            ChannelFailure::Serialization(detail) => detail.clone(),
            ChannelFailure::NoCallback => "Please register command callback using on_command()"
                .to_owned(),
            ChannelFailure::Raised(detail) => detail.clone(),
        }
    }
}

/// Decides what an invocation on the single command channel calls: the
/// channel's callback, with the invocation's JSON text; or the failure that
/// tells why there is no such call. The text counts first, then the
/// callback.
pub fn plan_channel_command<A>(registry: &CallbackRegistry<A>, args: &serde_json::Value) -> (plan:
    Result<Invocation, ChannelFailure>)
    ensures
        match plan {
            Ok(call) => {
                &&& Some(call.handler) == registry@.ipc_callback
                &&& json_text(*args) == Some(call.payload@)
            },
            Err(ChannelFailure::Serialization(_)) => json_text(*args) is None,
            Err(ChannelFailure::NoCallback) => json_text(*args) is Some
                && registry@.ipc_callback is None,
            Err(ChannelFailure::Raised(_)) => false,
        },
{
    let payload = match serialize(args) {
        Ok(text) => text,
        Err(error) => {
            return Err(ChannelFailure::Serialization(serialization_error_text(&error)));
        },
    };
    match command_callback(registry) {
        Some(handler) => Ok(Invocation { handler, payload }),
        None => Err(ChannelFailure::NoCallback),
    }
}

/// Makes a call that is due on the single command channel: calls the
/// callback with the payload as its one argument. The result is what the
/// callback returned, or `Raised` with the host's words where it raised.
pub fn invoke_on_channel(call: &Invocation) -> (outcome: Result<CallbackHandle, ChannelFailure>)
    ensures
        outcome matches Err(failure) ==> failure is Raised,
{
    match call_with_text(&call.handler, call.payload.as_str()) {
        Ok(returned) => Ok(returned),
        Err(error) => Err(ChannelFailure::Raised(error_text(&error))),
    }
}

/// Sends an invocation over the single command channel: plans the call with
/// [`plan_channel_command`] and makes it with [`invoke_on_channel`].
///
/// The text counts first: an invocation without one fails as
/// `Serialization`. Then the callback: without one the command fails as
/// `NoCallback`. Otherwise the result is what the callback returned, or
/// `Raised` where it raised.
pub fn command<A>(registry: &CallbackRegistry<A>, args: &serde_json::Value) -> (outcome: Result<
    CallbackHandle,
    ChannelFailure,
>)
    ensures
        json_text(*args) is None ==> outcome matches Err(ChannelFailure::Serialization(_)),
        json_text(*args) is Some && registry@.ipc_callback is None ==> outcome == Err::<
            CallbackHandle,
            ChannelFailure,
        >(ChannelFailure::NoCallback),
        json_text(*args) is Some && registry@.ipc_callback is Some ==> (outcome matches Err(
            failure,
        ) ==> failure is Raised),
{
    match plan_channel_command(registry, args) {
        Ok(call) => invoke_on_channel(&call),
        Err(failure) => Err(failure),
    }
}

/// The response on the single command channel to what the callback
/// returned: the structured form of the value, or, where it has none, the
/// error that names the value, as [`command_response`] gives it.
pub fn command_result(returned: &HostValue) -> (response: Result<StructuredValue, String>)
    ensures
        match coerce(returned@) {
            Ok(model) => response matches Ok(value) && value@ == model && value.wf(),
            Err(description) => response matches Err(message) && message@
                == conversion_error_prefix() + conversion_message_prefix() + description,
        },
{
    match pyany_to_json_value(returned) {
        Ok(value) => Ok(value),
        Err(error) => Err(conversion_failure(&error)),
    }
}

} // verus!
