//! The registry of host callbacks: at most one callback for the moment the
//! shell is ready, at most one for events, at most one for the single
//! command channel, and a table of command handlers by name. It also keeps
//! the shell's application handle and the directory of the frontend's files.
//!
//! A registration replaces what was registered before under the same slot or
//! name and leaves everything else as it was. A lookup hands out one more
//! reference to the callback and leaves the registration in place.

use crate::assoc::{keys_distinct, lemma_map_of, position, upsert, whole_map};
use crate::interpreter::{clone_handle, extract_text, get_attribute, CallbackHandle, HostError};
use vstd::prelude::*;

verus! {

/// The registry. `A` is the type of the shell's application handle.
pub struct CallbackRegistry<A> {
    app_handle: Option<A>,
    frontend_dir: Option<String>,
    ready_callback: Option<CallbackHandle>,
    listener_callback: Option<CallbackHandle>,
    ipc_callback: Option<CallbackHandle>,
    command_handlers: Vec<(String, CallbackHandle)>,
}

/// The mathematical content of a [`CallbackRegistry`].
pub struct RegistryModel<A> {
    pub app_handle: Option<A>,
    pub frontend_dir: Option<Seq<char>>,
    pub ready_callback: Option<CallbackHandle>,
    pub listener_callback: Option<CallbackHandle>,
    pub ipc_callback: Option<CallbackHandle>,
    pub command_handlers: Map<Seq<char>, CallbackHandle>,
}

impl<A> RegistryModel<A> {
    /// The registry in which nothing is registered.
    pub open spec fn empty() -> Self {
        RegistryModel {
            app_handle: None,
            frontend_dir: None,
            ready_callback: None,
            listener_callback: None,
            ipc_callback: None,
            command_handlers: Map::empty(),
        }
    }
}

impl<A> RegistryModel<A> {
    /// The registry with `handler` registered under `name`, in place of the
    /// handler that the name had, if any.
    pub open spec fn with_command_handler(self, name: Seq<char>, handler: CallbackHandle) -> Self {
        RegistryModel { command_handlers: self.command_handlers.insert(name, handler), ..self }
    }

    /// The registry with the first `n` of `handlers` registered one after the
    /// other, each under the name that stands in its place in `names`.
    pub open spec fn with_named_handlers(
        self,
        names: Seq<Seq<char>>,
        handlers: Seq<CallbackHandle>,
        n: nat,
    ) -> Self
        decreases n,
    {
        if n == 0 || n > names.len() || n > handlers.len() {
            self
        } else {
            self.with_named_handlers(names, handlers, (n - 1) as nat).with_command_handler(
                names[n - 1],
                handlers[n - 1],
            )
        }
    }

    /// Whether this registry is `before` with handlers added or replaced,
    /// each of them one of `handlers`: the other slots are the same, every
    /// name of `before` is still there, and every name holds the handler it
    /// held in `before` or one of `handlers`.
    pub open spec fn grown_from(self, before: Self, handlers: Seq<CallbackHandle>) -> bool {
        &&& self == (RegistryModel { command_handlers: self.command_handlers, ..before })
        &&& forall|name: Seq<char>| #[trigger]
            before.command_handlers.contains_key(name) ==> self.command_handlers.contains_key(
                name,
            )
        &&& forall|name: Seq<char>| #[trigger]
            self.command_handlers.contains_key(name) ==> {
                ||| before.command_handlers.contains_key(name) && before.command_handlers[name]
                    == self.command_handlers[name]
                ||| exists|i: int|
                    0 <= i < handlers.len() && #[trigger] handlers[i]
                        == self.command_handlers[name]
            }
    }
}

impl<A> View for CallbackRegistry<A> {
    type V = RegistryModel<A>;

    closed spec fn view(&self) -> RegistryModel<A> {
        RegistryModel {
            app_handle: self.app_handle,
            frontend_dir: match self.frontend_dir {
                Some(path) => Some(path@),
                None => None,
            },
            ready_callback: self.ready_callback,
            listener_callback: self.listener_callback,
            ipc_callback: self.ipc_callback,
            command_handlers: whole_map(self.command_handlers@),
        }
    }
}

impl<A> CallbackRegistry<A> {
    /// The registry is in order: no name has two handlers.
    pub closed spec fn wf(&self) -> bool {
        keys_distinct(self.command_handlers@)
    }

    /// A registry in which nothing is registered.
    pub fn new() -> (registry: Self)
        ensures
            registry.wf(),
            registry@ == RegistryModel::<A>::empty(),
    {
        CallbackRegistry {
            app_handle: None,
            frontend_dir: None,
            ready_callback: None,
            listener_callback: None,
            ipc_callback: None,
            command_handlers: Vec::new(),
        }
    }
}

/// The shell's application handle, once the shell has started.
pub fn app_handle<A>(registry: &CallbackRegistry<A>) -> (handle: Option<&A>)
    ensures
        match handle {
            Some(h) => registry@.app_handle == Some(*h),
            None => registry@.app_handle is None,
        },
{
    registry.app_handle.as_ref()
}

/// Keeps the shell's application handle.
pub fn set_app_handle<A>(registry: &mut CallbackRegistry<A>, handle: A)
    requires
        old(registry).wf(),
    ensures
        final(registry).wf(),
        final(registry)@ == (RegistryModel { app_handle: Some(handle), ..old(registry)@ }),
{
    registry.app_handle = Some(handle);
}

/// The directory of the frontend's files, if one was set.
pub fn frontend_dir<A>(registry: &CallbackRegistry<A>) -> (dir: Option<String>)
    ensures
        match dir {
            Some(path) => registry@.frontend_dir == Some(path@),
            None => registry@.frontend_dir is None,
        },
{
    match &registry.frontend_dir {
        Some(path) => Some(path.clone()),
        None => None,
    }
}

/// Sets the directory of the frontend's files.
pub fn set_frontend_dir<A>(registry: &mut CallbackRegistry<A>, path: String)
    requires
        old(registry).wf(),
    ensures
        final(registry).wf(),
        final(registry)@ == (RegistryModel { frontend_dir: Some(path@), ..old(registry)@ }),
{
    registry.frontend_dir = Some(path);
}

/// One more reference to the callback for events, if one is registered.
pub fn listener_callback<A>(registry: &CallbackRegistry<A>) -> (callback: Option<CallbackHandle>)
    ensures
        callback == registry@.listener_callback,
{
    match &registry.listener_callback {
        Some(handle) => Some(clone_handle(handle)),
        None => None,
    }
}

/// Registers the callback for events, in place of an earlier one.
pub fn set_listener_callback<A>(registry: &mut CallbackRegistry<A>, callback: CallbackHandle)
    requires
        old(registry).wf(),
    ensures
        final(registry).wf(),
        final(registry)@ == (RegistryModel {
            listener_callback: Some(callback),
            ..old(registry)@
        }),
{
    registry.listener_callback = Some(callback);
}

/// One more reference to the callback for the moment the shell is ready, if
/// one is registered.
pub fn ready_callback<A>(registry: &CallbackRegistry<A>) -> (callback: Option<CallbackHandle>)
    ensures
        callback == registry@.ready_callback,
{
    match &registry.ready_callback {
        Some(handle) => Some(clone_handle(handle)),
        None => None,
    }
}

/// Registers the callback for the moment the shell is ready, in place of an
/// earlier one.
pub fn set_ready_callback<A>(registry: &mut CallbackRegistry<A>, callback: CallbackHandle)
    requires
        old(registry).wf(),
    ensures
        final(registry).wf(),
        final(registry)@ == (RegistryModel { ready_callback: Some(callback), ..old(registry)@ }),
{
    registry.ready_callback = Some(callback);
}

/// Registers the callback of the single command channel, in place of an
/// earlier one.
pub fn on_command<A>(registry: &mut CallbackRegistry<A>, callback: CallbackHandle)
    requires
        old(registry).wf(),
    ensures
        final(registry).wf(),
        final(registry)@ == (RegistryModel { ipc_callback: Some(callback), ..old(registry)@ }),
{
    registry.ipc_callback = Some(callback);
}

/// One more reference to the callback of the single command channel, if one
/// is registered.
pub(crate) fn command_callback<A>(registry: &CallbackRegistry<A>) -> (callback: Option<
    CallbackHandle,
>)
    ensures
        callback == registry@.ipc_callback,
{
    match &registry.ipc_callback {
        Some(handle) => Some(clone_handle(handle)),
        None => None,
    }
}

/// Registers a command handler under a name, in place of an earlier handler
/// under that name.
pub fn add_command_handler<A>(
    registry: &mut CallbackRegistry<A>,
    key: String,
    value: CallbackHandle,
)
    requires
        old(registry).wf(),
    ensures
        final(registry).wf(),
        final(registry)@ == old(registry)@.with_command_handler(key@, value),
{
    upsert(&mut registry.command_handlers, key, value);
}

/// One more reference to the command handler registered under a name, if
/// there is one.
pub fn get_command_handler<A>(registry: &CallbackRegistry<A>, key: &str) -> (handler: Option<
    CallbackHandle,
>)
    requires
        registry.wf(),
    ensures
        match handler {
            Some(h) => registry@.command_handlers.contains_key(key@)
                && registry@.command_handlers[key@] == h,
            None => !registry@.command_handlers.contains_key(key@),
        },
{
    proof {
        lemma_map_of(registry.command_handlers@, registry.command_handlers@.len());
        assert(registry.command_handlers@.take(registry.command_handlers@.len() as int)
            == registry.command_handlers@);
    }
    let name = key.to_owned();
    match position(&registry.command_handlers, &name) {
        Some(i) => Some(clone_handle(&registry.command_handlers[i].1)),
        None => None,
    }
}

/// The views of names, in order.
pub open spec fn name_views(names: Seq<String>) -> Seq<Seq<char>> {
    Seq::new(names.len(), |i: int| names[i]@)
}

/// The names that the host gave for handlers, as far as the reading came.
pub struct NamesRead {
    /// The names of the handlers before the one for which the reading
    /// failed, or of all of them, in order.
    pub names: Vec<String>,
    /// The host's error for the first handler without a name, if there is
    /// such a handler.
    pub failure: Option<HostError>,
}

/// Reads the name that the host gives each handler, its `__name__`, in
/// order, and stops at the first handler for which the host gives none.
///
/// The names are the host's. Whatever they are: there is one name for each
/// handler before the one that failed, and for every handler where none
/// failed.
pub fn read_handler_names(handlers: &Vec<CallbackHandle>) -> (read: NamesRead)
    ensures
        read.names@.len() <= handlers@.len(),
        read.failure is None <==> read.names@.len() == handlers@.len(),
{
    let mut names: Vec<String> = Vec::new();
    let mut i: usize = 0;
    while i < handlers.len()
        invariant
            i <= handlers@.len(),
            names@.len() == i,
        decreases handlers@.len() - i,
    {
        let attribute = match get_attribute(&handlers[i], "__name__") {
            Ok(attribute) => attribute,
            Err(error) => {
                return NamesRead { names, failure: Some(error) };
            },
        };
        match extract_text(&attribute) {
            Ok(name) => names.push(name),
            Err(error) => {
                return NamesRead { names, failure: Some(error) };
            },
        }
        i += 1;
    }
    NamesRead { names, failure: None }
}

/// Registers handlers under given names: the first handler under the first
/// name, and so on, as far as both lists go; a later handler replaces an
/// earlier one of the same name.
pub fn register_named<A>(
    registry: &mut CallbackRegistry<A>,
    names: &Vec<String>,
    handlers: &Vec<CallbackHandle>,
)
    requires
        old(registry).wf(),
    ensures
        final(registry).wf(),
        final(registry)@ == old(registry)@.with_named_handlers(
            name_views(names@),
            handlers@,
            if names@.len() <= handlers@.len() {
                names@.len()
            } else {
                handlers@.len()
            },
        ),
        final(registry)@.grown_from(old(registry)@, handlers@),
{
    let mut i: usize = 0;
    while i < names.len() && i < handlers.len()
        invariant
            i <= names@.len(),
            i <= handlers@.len(),
            registry.wf(),
            registry@.grown_from(old(registry)@, handlers@),
            registry@ == old(registry)@.with_named_handlers(
                name_views(names@),
                handlers@,
                i as nat,
            ),
        decreases names@.len() - i,
    {
        add_command_handler(registry, names[i].clone(), clone_handle(&handlers[i]));
        i += 1;
    }
}

/// Registers each handler under the name that the host gives it, its
/// `__name__`, in order; a later handler replaces an earlier one of the same
/// name. Where the host gives no name for a handler, its error is the
/// result, and the handlers before that one are registered all the same.
/// The names are read with [`read_handler_names`], and what was read is
/// registered with [`register_named`].
///
/// The names are the host's. Whatever they are: after success the registry
/// is the one before with every handler registered in order, each under one
/// name; after a failure it is the one before with the handlers registered
/// that stand before the one that failed. Without handlers the registration
/// succeeds and changes nothing. In every case the other slots stay as they
/// are, and every name holds afterwards either the handler it held before or
/// one of `handlers`.
pub fn register_commands<A>(
    registry: &mut CallbackRegistry<A>,
    handlers: &Vec<CallbackHandle>,
) -> (outcome: Result<(), HostError>)
    requires
        old(registry).wf(),
    ensures
        final(registry).wf(),
        final(registry)@.grown_from(old(registry)@, handlers@),
        match outcome {
            Ok(_) => exists|names: Seq<Seq<char>>|
                names.len() == handlers@.len() && final(registry)@ == #[trigger] old(
                    registry,
                )@.with_named_handlers(names, handlers@, handlers@.len()),
            Err(_) => exists|names: Seq<Seq<char>>, done: nat|
                done < handlers@.len() && names.len() == done && final(registry)@
                    == #[trigger] old(registry)@.with_named_handlers(names, handlers@, done),
        },
{
    let read = read_handler_names(handlers);
    register_named(registry, &read.names, handlers);
    proof {
        let names = name_views(read.names@);
        assert(registry@ == old(registry)@.with_named_handlers(names, handlers@, names.len()));
    }
    match read.failure {
        None => Ok(()),
        Some(error) => Err(error),
    }
}

/// Of two handlers registered under one name the second replaces the first:
/// the registry is as if the first had never been registered, and the name
/// holds the second.
pub proof fn lemma_later_registration_replaces<A>(
    registry: RegistryModel<A>,
    name: Seq<char>,
    first: CallbackHandle,
    second: CallbackHandle,
)
    ensures
        registry.with_command_handler(name, first).with_command_handler(name, second)
            == registry.with_command_handler(name, second),
        registry.with_command_handler(name, first).with_command_handler(
            name,
            second,
        ).command_handlers[name] == second,
{
    assert(registry.command_handlers.insert(name, first).insert(name, second)
        =~= registry.command_handlers.insert(name, second));
}

/// A registration leaves every other name as it was: whether it has a
/// handler, and which.
pub proof fn lemma_registration_keeps_others<A>(
    registry: RegistryModel<A>,
    name: Seq<char>,
    handler: CallbackHandle,
    other: Seq<char>,
)
    requires
        other != name,
    ensures
        registry.with_command_handler(name, handler).command_handlers.contains_key(other)
            == registry.command_handlers.contains_key(other),
        registry.command_handlers.contains_key(other) ==> registry.with_command_handler(
            name,
            handler,
        ).command_handlers[other] == registry.command_handlers[other],
{
}

/// Registrations under two different names do not disturb each other: in
/// either order both names hold their handlers, and the registries are the
/// same.
pub proof fn lemma_registrations_commute<A>(
    registry: RegistryModel<A>,
    name_a: Seq<char>,
    handler_a: CallbackHandle,
    name_b: Seq<char>,
    handler_b: CallbackHandle,
)
    requires
        name_a != name_b,
    ensures
        registry.with_command_handler(name_a, handler_a).with_command_handler(name_b, handler_b)
            == registry.with_command_handler(name_b, handler_b).with_command_handler(
            name_a,
            handler_a,
        ),
        registry.with_command_handler(name_a, handler_a).with_command_handler(
            name_b,
            handler_b,
        ).command_handlers[name_a] == handler_a,
        registry.with_command_handler(name_a, handler_a).with_command_handler(
            name_b,
            handler_b,
        ).command_handlers[name_b] == handler_b,
{
    assert(registry.command_handlers.insert(name_a, handler_a).insert(name_b, handler_b)
        =~= registry.command_handlers.insert(name_b, handler_b).insert(name_a, handler_a));
}

} // verus!
