//! The operations of an environment, over typed values.

use vstd::prelude::*;
use crate::capabilities::Capabilities;
use crate::error::{error_of_code, spec_status, status, NativeError};
use crate::event::{
    notification_mode, spec_native_callbacks, spec_notification_mode, EventCallbacks, VMEvent,
};
use crate::event_handler::CallbackRegistry;
use crate::native::{
    JavaThread, NativeCapabilities, NativeEventCallbacks, NativeInterface, NativeThreadInfo,
};
use crate::thread::{reply_view, result_is, spec_thread_info, Thread, ThreadView};
use crate::version::VersionNumber;

verus! {

/// What an agent can ask of an environment.
pub trait JVMTI {
    /// What the host runs for an event.
    type Handler;

    /// The handlers that are in force, by event kind.
    spec fn callbacks(&self) -> Map<VMEvent, Self::Handler>;

    /// The version of the interface that the environment speaks.
    fn get_version_number(&self) -> VersionNumber;

    /// Asks the environment to hold the capabilities of `new_capabilities`
    /// besides those that it holds already.
    ///
    /// Success gives the capabilities that the environment holds
    /// afterwards, as the environment itself reports them: a virtual machine
    /// may grant less than was asked for. A refusal gives the error, and the
    /// environment holds what it held.
    fn add_capabilities(&mut self, new_capabilities: &Capabilities) -> (result: Result<
        Capabilities,
        NativeError,
    >)
        ensures
            final(self).callbacks() == old(self).callbacks(),
            result matches Err(error) ==> error != NativeError::NoError,
    ;

    /// The capabilities that the environment holds now.
    fn get_capabilities(&self) -> Capabilities;

    /// Puts a set of callbacks in force, in place of all that were in force:
    /// an event kind for which `callbacks` names no handler has none
    /// afterwards. The set is taken over as a whole, and the environment is
    /// given the callback table that belongs to it.
    ///
    /// A handler runs only for an event kind whose notification is switched
    /// on as well; which of the two happens first makes no difference.
    ///
    /// The handlers are in force when the call returns, whether or not the
    /// environment accepted the table. The outcome is the status that the
    /// environment answers to the table.
    fn set_event_callbacks(&mut self, callbacks: EventCallbacks<Self::Handler>) -> (outcome:
        Option<NativeError>)
        ensures
            final(self).callbacks() == callbacks@,
            outcome matches Some(error) ==> error != NativeError::NoError,
    ;

    /// Switches the notification of an event kind on or off, for all
    /// threads. No handler comes or goes by this. The outcome is the status
    /// that the environment answers to the request.
    fn set_event_notification_mode(&mut self, event: VMEvent, mode: bool) -> (outcome: Option<
        NativeError,
    >)
        ensures
            final(self).callbacks() == old(self).callbacks(),
            outcome matches Some(error) ==> error != NativeError::NoError,
    ;

    /// What the virtual machine tells about a thread.
    fn get_thread_info(&self, thread_id: &JavaThread) -> (result: Result<Thread, NativeError>)
        ensures
            result matches Ok(thread) ==> thread.id.native_id == *thread_id,
            result matches Err(error) ==> error != NativeError::NoError,
    ;
}

/// Whether `call` is what the trampoline of a thread event hands to the host,
/// given the handler that is in force and what the thread-info query came
/// to: the handler with the description of the thread, or nothing where the
/// thread was not described.
pub open spec fn delivery_is<H>(
    call: Option<(&H, Thread)>,
    handler: H,
    described: Result<ThreadView, NativeError>,
) -> bool {
    match described {
        Ok(view) => call matches Some((found, thread)) && *found == handler && thread@ == view,
        Err(_) => call is None,
    }
}

/// An environment of a virtual machine, with the callbacks of its agent.
///
/// `N` reaches the environment; `H` is what the host runs for an event.
pub struct JVMTIEnvironment<N, H> {
    jvmti: N,
    registry: CallbackRegistry<H>,
}

impl<N: NativeInterface, H> JVMTIEnvironment<N, H> {
    /// The environment that the operations go to.
    pub closed spec fn native(&self) -> N {
        self.jvmti
    }

    /// Whether a set of callbacks was registered.
    pub closed spec fn is_configured(&self) -> bool {
        self.registry.is_configured()
    }

    /// The handlers that are in force, by event kind.
    pub closed spec fn handlers(&self) -> Map<VMEvent, H> {
        self.registry@
    }

    /// Wraps an environment. No callbacks are registered yet, so no event
    /// kind has a handler.
    pub fn new(env_ptr: N) -> (environment: JVMTIEnvironment<N, H>)
        ensures
            environment.native() == env_ptr,
            !environment.is_configured(),
            environment.handlers() == Map::<VMEvent, H>::empty(),
    {
        JVMTIEnvironment { jvmti: env_ptr, registry: CallbackRegistry::new() }
    }

    /// Whether a set of callbacks was registered.
    pub fn configured(&self) -> (configured: bool)
        ensures
            configured == self.is_configured(),
    {
        self.registry.configured()
    }

    /// The environment that the operations go to.
    pub fn native_interface(&self) -> (native: &N)
        ensures
            *native == self.native(),
    {
        &self.jvmti
    }

    /// What the trampoline of an event kind does when the virtual machine
    /// calls it: it finds the handler that is in force for the event kind.
    /// The host runs that handler, once; where there is none, the event
    /// passes without effect.
    pub fn dispatch(&self, event: VMEvent) -> (handler: Option<&H>)
        ensures
            handler is Some <==> self.handlers().dom().contains(event),
            handler matches Some(found) ==> *found == self.handlers()[event],
    {
        self.registry.handler(event)
    }

    /// What the trampoline of an event kind that concerns a thread does: it
    /// finds the handler that is in force and asks the virtual machine about
    /// the thread. The host runs the handler with that description. Where
    /// the event kind has no handler the virtual machine is not asked, and
    /// where it does not describe the thread the handler is not run.
    ///
    /// So with a handler in force, the result goes by the answer of the
    /// environment to one thread-info query for `thread_id`.
    pub fn dispatch_with_thread(&self, event: VMEvent, thread_id: &JavaThread) -> (call: Option<
        (&H, Thread),
    >)
        ensures
            !self.handlers().dom().contains(event) ==> call is None,
            self.handlers().dom().contains(event) ==> exists|
                reply: Option<(u32, NativeThreadInfo)>,
            |
                #[trigger] call_ensures(N::get_thread_info, (&self.native(), thread_id), reply)
                    && delivery_is(
                    call,
                    self.handlers()[event],
                    spec_thread_info(*thread_id, reply_view(reply)),
                ),
    {
        match self.registry.handler(event) {
            Some(handler) => {
                match self.get_thread_info(thread_id) {
                    Ok(thread) => Some((handler, thread)),
                    Err(_) => None,
                }
            },
            None => None,
        }
    }
}

impl<N: NativeInterface, H> JVMTI for JVMTIEnvironment<N, H> {
    type Handler = H;

    open spec fn callbacks(&self) -> Map<VMEvent, H> {
        self.handlers()
    }

    fn get_version_number(&self) -> (version: VersionNumber)
        ensures
            exists|word: i32|
                #[trigger] call_ensures(N::get_version_number, (&self.native(),), word)
                    && version == VersionNumber::spec_from_native(word),
    {
        let word = self.jvmti.get_version_number();
        assert(call_ensures(N::get_version_number, (&self.native(),), word));
        VersionNumber::from_native(word)
    }

    fn add_capabilities(&mut self, new_capabilities: &Capabilities) -> (result: Result<
        Capabilities,
        NativeError,
    >)
        ensures
            final(self).is_configured() == old(self).is_configured(),
            final(self).native() == old(self).native(),
            result matches Err(error) ==> error.is_reported_failure(),
            exists|code: u32|
                #[trigger] call_ensures(
                    N::add_capabilities,
                    (&old(self).native(), &new_capabilities.spec_to_native()),
                    code,
                ) && if code == 0 {
                    exists|reported: NativeCapabilities|
                        #[trigger] call_ensures(
                            N::get_capabilities,
                            (&old(self).native(),),
                            reported,
                        ) && result == Ok::<Capabilities, NativeError>(
                            Capabilities::spec_from_native(reported),
                        )
                } else {
                    result == Err::<Capabilities, NativeError>(error_of_code(code))
                },
    {
        let native_caps = new_capabilities.to_native();
        let code = self.jvmti.add_capabilities(&native_caps);
        match status(code) {
            None => Ok(self.get_capabilities()),
            Some(err) => Err(err),
        }
    }

    fn get_capabilities(&self) -> (capabilities: Capabilities)
        ensures
            exists|native: NativeCapabilities|
                #[trigger] call_ensures(N::get_capabilities, (&self.native(),), native)
                    && capabilities == Capabilities::spec_from_native(native),
    {
        let native_caps = self.jvmti.get_capabilities();
        assert(call_ensures(N::get_capabilities, (&self.native(),), native_caps));
        Capabilities::from_native(&native_caps)
    }

    fn set_event_callbacks(&mut self, callbacks: EventCallbacks<H>) -> (outcome: Option<
        NativeError,
    >)
        ensures
            final(self).is_configured(),
            final(self).native() == old(self).native(),
            outcome matches Some(error) ==> error.is_reported_failure(),
            exists|table: NativeEventCallbacks, code: u32|
                table@ == spec_native_callbacks(callbacks@) && #[trigger] call_ensures(
                    N::set_event_callbacks,
                    (&old(self).native(), &table),
                    code,
                ) && outcome == spec_status(code),
    {
        self.registry.register(callbacks);
        let native_callbacks = self.registry.registered_callbacks();
        let code = self.jvmti.set_event_callbacks(&native_callbacks);
        assert(native_callbacks@ == spec_native_callbacks(callbacks@) && call_ensures(
            N::set_event_callbacks,
            (&old(self).native(), &native_callbacks),
            code,
        ));
        status(code)
    }

    fn set_event_notification_mode(&mut self, event: VMEvent, mode: bool) -> (outcome: Option<
        NativeError,
    >)
        ensures
            final(self).is_configured() == old(self).is_configured(),
            final(self).native() == old(self).native(),
            outcome matches Some(error) ==> error.is_reported_failure(),
            exists|code: u32|
                #[trigger] call_ensures(
                    N::set_event_notification_mode,
                    (&old(self).native(), spec_notification_mode(mode), event.spec_code()),
                    code,
                ) && outcome == spec_status(code),
    {
        let mode_i = notification_mode(mode);
        let code = self.jvmti.set_event_notification_mode(mode_i, event.code());
        status(code)
    }

    fn get_thread_info(&self, thread_id: &JavaThread) -> (result: Result<Thread, NativeError>)
        ensures
            exists|reply: Option<(u32, NativeThreadInfo)>|
                #[trigger] call_ensures(N::get_thread_info, (&self.native(), thread_id), reply)
                    && result_is(result, spec_thread_info(*thread_id, reply_view(reply))),
    {
        let reply = self.jvmti.get_thread_info(thread_id);
        Thread::from_reply(thread_id, &reply)
    }
}

} // verus!
