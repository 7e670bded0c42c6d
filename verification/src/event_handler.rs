//! The registry of event callbacks.
//!
//! The registry is the one place that knows which handler belongs to which
//! event kind. It starts out unconfigured, with no handler at all, and is
//! configured by handing it a whole set of callbacks, which replaces what it
//! held. The trampolines that the virtual machine calls look up their handler
//! here each time they run.
//!
//! A registry is an ordinary value. A host that shares one between the
//! threads of the virtual machine keeps it behind a lock: looking up takes
//! `&self`, replacing takes `&mut self`, so no lookup can see half of a
//! replacement.

use vstd::prelude::*;
use crate::event::{
    lemma_table_follows_handlers, spec_native_callbacks, EventCallbacks, VMEvent,
};
use crate::native::NativeEventCallbacks;

verus! {

/// The handlers that are in force, by event kind.
pub struct CallbackRegistry<H> {
    callbacks: Option<EventCallbacks<H>>,
}

impl<H> View for CallbackRegistry<H> {
    type V = Map<VMEvent, H>;

    /// The handlers by event kind; none while the registry is unconfigured.
    closed spec fn view(&self) -> Map<VMEvent, H> {
        match self.callbacks {
            Some(callbacks) => callbacks@,
            None => Map::empty(),
        }
    }
}

impl<H> CallbackRegistry<H> {
    /// Whether a set of callbacks was registered.
    pub closed spec fn is_configured(&self) -> bool {
        self.callbacks is Some
    }

    /// An unconfigured registry: no event kind has a handler.
    pub fn new() -> (registry: CallbackRegistry<H>)
        ensures
            !registry.is_configured(),
            registry@ == Map::<VMEvent, H>::empty(),
    {
        CallbackRegistry { callbacks: None }
    }

    /// Whether a set of callbacks was registered.
    pub fn configured(&self) -> (configured: bool)
        ensures
            configured == self.is_configured(),
    {
        self.callbacks.is_some()
    }

    /// Registers a set of callbacks in place of whatever was registered: an
    /// event kind has a handler afterwards exactly if `callbacks` has one for
    /// it, and that handler is the one of `callbacks`.
    pub fn register(&mut self, callbacks: EventCallbacks<H>)
        ensures
            final(self).is_configured(),
            final(self)@ == callbacks@,
    {
        self.callbacks = Some(callbacks);
    }

    /// The handler that is in force for an event kind, if there is one.
    pub fn handler(&self, event: VMEvent) -> (handler: Option<&H>)
        ensures
            handler is Some <==> self@.dom().contains(event),
            handler matches Some(found) ==> *found == self@[event],
    {
        match &self.callbacks {
            Some(callbacks) => callbacks.handler(event),
            None => None,
        }
    }

    /// The callback table that stands for the registry: a slot holds its
    /// trampoline exactly if its event kind has a handler.
    pub fn registered_callbacks(&self) -> (table: NativeEventCallbacks)
        ensures
            table@ == spec_native_callbacks(self@),
    {
        match &self.callbacks {
            Some(callbacks) => callbacks.native_callbacks(),
            None => {
                let empty: EventCallbacks<H> = EventCallbacks::new();
                empty.native_callbacks()
            },
        }
    }
}

/// Once a set of callbacks is registered, whatever was registered before, a
/// lookup finds for each event kind the handler that the set names for it,
/// and finds nothing for an event kind for which the set names none.
pub proof fn lemma_registered_handlers_are_found<H>(
    registry: CallbackRegistry<H>,
    callbacks: EventCallbacks<H>,
    event: VMEvent,
)
    requires
        registry@ == callbacks@,
    ensures
        registry@.dom().contains(event) <==> callbacks.spec_handler(event) is Some,
        callbacks.spec_handler(event) matches Some(handler) ==> registry@[event] == handler,
{
}

/// Whether an occurrence of an event kind ends in a handler being run, given
/// how a virtual machine delivers events: it calls the trampoline of an
/// event kind exactly if the notification of the event kind is switched on
/// and the callback table that it was given holds the trampoline, and the
/// trampoline runs the handler that is in force, if there is one.
pub open spec fn handler_runs<H>(
    enabled: bool,
    installed: Seq<bool>,
    handlers: Map<VMEvent, H>,
    event: VMEvent,
) -> bool {
    enabled && installed[event.spec_slot()] && handlers.dom().contains(event)
}

/// With the callback table of the handlers installed, a handler runs for an
/// occurrence of an event kind exactly if the notification of the event kind
/// is switched on and the event kind has a handler: neither alone runs
/// anything, and the table keeps no event from its handler.
pub proof fn lemma_mode_and_callback_are_independent<H>(
    enabled: bool,
    handlers: Map<VMEvent, H>,
    event: VMEvent,
)
    ensures
        handler_runs(enabled, spec_native_callbacks(handlers), handlers, event) == (enabled
            && handlers.dom().contains(event)),
        !enabled ==> !handler_runs(enabled, spec_native_callbacks(handlers), handlers, event),
        !handlers.dom().contains(event) ==> !handler_runs(
            enabled,
            spec_native_callbacks(handlers),
            handlers,
            event,
        ),
{
    lemma_table_follows_handlers(handlers, event);
}

/// An unconfigured registry has no handler for any event kind.
pub proof fn lemma_unconfigured_is_empty<H>(registry: CallbackRegistry<H>)
    requires
        !registry.is_configured(),
    ensures
        registry@ == Map::<VMEvent, H>::empty(),
{
}

} // verus!
