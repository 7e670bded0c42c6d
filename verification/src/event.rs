//! The event kinds of the interface and the callbacks of an agent.

use vstd::prelude::*;
use crate::native::NativeEventCallbacks;

verus! {

/// The number that the interface gives its first event kind.
pub const JVMTI_MIN_EVENT_TYPE_VAL: u32 = 50;

/// The number that the interface gives its last event kind.
pub const JVMTI_MAX_EVENT_TYPE_VAL: u32 = 84;

/// The mode word that switches the notification of an event kind on.
pub const JVMTI_ENABLE: u32 = 1;

/// The mode word that switches the notification of an event kind off.
pub const JVMTI_DISABLE: u32 = 0;

/// The event kinds that an agent can have a callback for.
#[derive(Clone, Copy, Debug, PartialEq, Eq, Hash, Structural)]
pub enum VMEvent {
    VMInit,
    VMDeath,
    ThreadStart,
    ThreadEnd,
    VMStart,
    Exception,
    ExceptionCatch,
    FieldAccess,
    FieldModification,
    MethodEntry,
    MethodExit,
    MonitorWait,
    MonitorWaited,
    MonitorContendedEnter,
    MonitorContendedEntered,
    GarbageCollectionStart,
    GarbageCollectionFinish,
    VMObjectAlloc,
}

impl VMEvent {
    /// The number of the event kind in the interface.
    pub open spec fn spec_code(self) -> u32 {
        match self {
            VMEvent::VMInit => 50,
            VMEvent::VMDeath => 51,
            VMEvent::ThreadStart => 52,
            VMEvent::ThreadEnd => 53,
            VMEvent::VMStart => 57,
            VMEvent::Exception => 58,
            VMEvent::ExceptionCatch => 59,
            VMEvent::FieldAccess => 63,
            VMEvent::FieldModification => 64,
            VMEvent::MethodEntry => 65,
            VMEvent::MethodExit => 66,
            VMEvent::MonitorWait => 73,
            VMEvent::MonitorWaited => 74,
            VMEvent::MonitorContendedEnter => 75,
            VMEvent::MonitorContendedEntered => 76,
            VMEvent::GarbageCollectionStart => 81,
            VMEvent::GarbageCollectionFinish => 82,
            VMEvent::VMObjectAlloc => 84,
        }
    }

    /// The event kind with the given number, if this crate knows one.
    pub open spec fn spec_from_code(code: u32) -> Option<VMEvent> {
        if code == 50 {
            Some(VMEvent::VMInit)
        } else if code == 51 {
            Some(VMEvent::VMDeath)
        } else if code == 52 {
            Some(VMEvent::ThreadStart)
        } else if code == 53 {
            Some(VMEvent::ThreadEnd)
        } else if code == 57 {
            Some(VMEvent::VMStart)
        } else if code == 58 {
            Some(VMEvent::Exception)
        } else if code == 59 {
            Some(VMEvent::ExceptionCatch)
        } else if code == 63 {
            Some(VMEvent::FieldAccess)
        } else if code == 64 {
            Some(VMEvent::FieldModification)
        } else if code == 65 {
            Some(VMEvent::MethodEntry)
        } else if code == 66 {
            Some(VMEvent::MethodExit)
        } else if code == 73 {
            Some(VMEvent::MonitorWait)
        } else if code == 74 {
            Some(VMEvent::MonitorWaited)
        } else if code == 75 {
            Some(VMEvent::MonitorContendedEnter)
        } else if code == 76 {
            Some(VMEvent::MonitorContendedEntered)
        } else if code == 81 {
            Some(VMEvent::GarbageCollectionStart)
        } else if code == 82 {
            Some(VMEvent::GarbageCollectionFinish)
        } else if code == 84 {
            Some(VMEvent::VMObjectAlloc)
        } else {
            None
        }
    }

    /// The position of the event kind's callback in the callback table of
    /// the interface, which has one slot for each number from the first
    /// event kind to the last.
    pub open spec fn spec_slot(self) -> int {
        self.spec_code() - JVMTI_MIN_EVENT_TYPE_VAL
    }

    /// The number of the event kind in the interface.
    pub fn code(self) -> (code: u32)
        ensures
            code == self.spec_code(),
            JVMTI_MIN_EVENT_TYPE_VAL <= code <= JVMTI_MAX_EVENT_TYPE_VAL,
    {
        match self {
            VMEvent::VMInit => 50,
            VMEvent::VMDeath => 51,
            VMEvent::ThreadStart => 52,
            VMEvent::ThreadEnd => 53,
            VMEvent::VMStart => 57,
            VMEvent::Exception => 58,
            VMEvent::ExceptionCatch => 59,
            VMEvent::FieldAccess => 63,
            VMEvent::FieldModification => 64,
            VMEvent::MethodEntry => 65,
            VMEvent::MethodExit => 66,
            VMEvent::MonitorWait => 73,
            VMEvent::MonitorWaited => 74,
            VMEvent::MonitorContendedEnter => 75,
            VMEvent::MonitorContendedEntered => 76,
            VMEvent::GarbageCollectionStart => 81,
            VMEvent::GarbageCollectionFinish => 82,
            VMEvent::VMObjectAlloc => 84,
        }
    }

    /// The event kind with the given number, or nothing where the number
    /// belongs to no event kind that an agent can have a callback for.
    pub fn from_code(code: u32) -> (event: Option<VMEvent>)
        ensures
            event == Self::spec_from_code(code),
    {
        match code {
            50 => Some(VMEvent::VMInit),
            51 => Some(VMEvent::VMDeath),
            52 => Some(VMEvent::ThreadStart),
            53 => Some(VMEvent::ThreadEnd),
            57 => Some(VMEvent::VMStart),
            58 => Some(VMEvent::Exception),
            59 => Some(VMEvent::ExceptionCatch),
            63 => Some(VMEvent::FieldAccess),
            64 => Some(VMEvent::FieldModification),
            65 => Some(VMEvent::MethodEntry),
            66 => Some(VMEvent::MethodExit),
            73 => Some(VMEvent::MonitorWait),
            74 => Some(VMEvent::MonitorWaited),
            75 => Some(VMEvent::MonitorContendedEnter),
            76 => Some(VMEvent::MonitorContendedEntered),
            81 => Some(VMEvent::GarbageCollectionStart),
            82 => Some(VMEvent::GarbageCollectionFinish),
            84 => Some(VMEvent::VMObjectAlloc),
            _ => None,
        }
    }

    /// The position of the event kind's callback in the callback table.
    pub fn slot(self) -> (slot: usize)
        ensures
            slot == self.spec_slot(),
            slot < NativeEventCallbacks::spec_slot_count(),
    {
        (self.code() - JVMTI_MIN_EVENT_TYPE_VAL) as usize
    }
}

/// The mode word for switching the notification of an event kind on or off.
pub open spec fn spec_notification_mode(enabled: bool) -> u32 {
    if enabled {
        JVMTI_ENABLE
    } else {
        JVMTI_DISABLE
    }
}

/// The mode word for switching the notification of an event kind on or off.
pub fn notification_mode(enabled: bool) -> (mode: u32)
    ensures
        mode == spec_notification_mode(enabled),
{
    if enabled {
        JVMTI_ENABLE
    } else {
        JVMTI_DISABLE
    }
}

/// Each event kind has a number and a slot of its own: the number leads back
/// to the event kind, and two event kinds with one slot are the same.
pub proof fn lemma_event_numbers_are_distinct(first: VMEvent, second: VMEvent)
    ensures
        VMEvent::spec_from_code(first.spec_code()) == Some(first),
        first.spec_slot() == second.spec_slot() ==> first == second,
        0 <= first.spec_slot() < NativeEventCallbacks::spec_slot_count(),
{
}

/// A number leads to an event kind only if it is that event kind's number.
pub proof fn lemma_event_of_number(code: u32)
    ensures
        VMEvent::spec_from_code(code) matches Some(event) ==> event.spec_code() == code,
{
}

/// The callbacks of an agent: for each event kind a handler, or nothing
/// where the agent does not listen.
///
/// `H` is what the host runs for an event; this crate stores it and hands
/// it back, and never looks inside.
pub struct EventCallbacks<H> {
    pub vm_init: Option<H>,
    pub vm_death: Option<H>,
    pub thread_start: Option<H>,
    pub thread_end: Option<H>,
    pub vm_start: Option<H>,
    pub exception: Option<H>,
    pub exception_catch: Option<H>,
    pub field_access: Option<H>,
    pub field_modification: Option<H>,
    pub method_entry: Option<H>,
    pub method_exit: Option<H>,
    pub monitor_wait: Option<H>,
    pub monitor_waited: Option<H>,
    pub monitor_contended_enter: Option<H>,
    pub monitor_contended_entered: Option<H>,
    pub garbage_collection_start: Option<H>,
    pub garbage_collection_finish: Option<H>,
    pub vm_object_alloc: Option<H>,
}

impl<H> View for EventCallbacks<H> {
    type V = Map<VMEvent, H>;

    /// The handlers by event kind. An event kind without a handler is not
    /// in the map.
    open spec fn view(&self) -> Map<VMEvent, H> {
        Map::new(
            |event: VMEvent| self.spec_handler(event) is Some,
            |event: VMEvent| self.spec_handler(event)->0,
        )
    }
}

impl<H> EventCallbacks<H> {
    /// The handler of an event kind, if there is one.
    pub open spec fn spec_handler(&self, event: VMEvent) -> Option<H> {
        match event {
            VMEvent::VMInit => self.vm_init,
            VMEvent::VMDeath => self.vm_death,
            VMEvent::ThreadStart => self.thread_start,
            VMEvent::ThreadEnd => self.thread_end,
            VMEvent::VMStart => self.vm_start,
            VMEvent::Exception => self.exception,
            VMEvent::ExceptionCatch => self.exception_catch,
            VMEvent::FieldAccess => self.field_access,
            VMEvent::FieldModification => self.field_modification,
            VMEvent::MethodEntry => self.method_entry,
            VMEvent::MethodExit => self.method_exit,
            VMEvent::MonitorWait => self.monitor_wait,
            VMEvent::MonitorWaited => self.monitor_waited,
            VMEvent::MonitorContendedEnter => self.monitor_contended_enter,
            VMEvent::MonitorContendedEntered => self.monitor_contended_entered,
            VMEvent::GarbageCollectionStart => self.garbage_collection_start,
            VMEvent::GarbageCollectionFinish => self.garbage_collection_finish,
            VMEvent::VMObjectAlloc => self.vm_object_alloc,
        }
    }

    /// Callbacks for no event kind at all.
    pub open spec fn spec_new() -> EventCallbacks<H> {
        EventCallbacks {
            vm_init: None,
            vm_death: None,
            thread_start: None,
            thread_end: None,
            vm_start: None,
            exception: None,
            exception_catch: None,
            field_access: None,
            field_modification: None,
            method_entry: None,
            method_exit: None,
            monitor_wait: None,
            monitor_waited: None,
            monitor_contended_enter: None,
            monitor_contended_entered: None,
            garbage_collection_start: None,
            garbage_collection_finish: None,
            vm_object_alloc: None,
        }
    }

    /// Callbacks for no event kind at all.
    pub fn new() -> (callbacks: EventCallbacks<H>)
        ensures
            callbacks == Self::spec_new(),
            callbacks@ == Map::<VMEvent, H>::empty(),
    {
        let callbacks = EventCallbacks {
            vm_init: None,
            vm_death: None,
            thread_start: None,
            thread_end: None,
            vm_start: None,
            exception: None,
            exception_catch: None,
            field_access: None,
            field_modification: None,
            method_entry: None,
            method_exit: None,
            monitor_wait: None,
            monitor_waited: None,
            monitor_contended_enter: None,
            monitor_contended_entered: None,
            garbage_collection_start: None,
            garbage_collection_finish: None,
            vm_object_alloc: None,
        };
        assert(callbacks@ =~= Map::<VMEvent, H>::empty());
        callbacks
    }

    /// The handler of an event kind, if there is one.
    pub fn handler(&self, event: VMEvent) -> (handler: Option<&H>)
        ensures
            handler is Some <==> self@.dom().contains(event),
            handler matches Some(found) ==> *found == self@[event],
    {
        match event {
            VMEvent::VMInit => self.vm_init.as_ref(),
            VMEvent::VMDeath => self.vm_death.as_ref(),
            VMEvent::ThreadStart => self.thread_start.as_ref(),
            VMEvent::ThreadEnd => self.thread_end.as_ref(),
            VMEvent::VMStart => self.vm_start.as_ref(),
            VMEvent::Exception => self.exception.as_ref(),
            VMEvent::ExceptionCatch => self.exception_catch.as_ref(),
            VMEvent::FieldAccess => self.field_access.as_ref(),
            VMEvent::FieldModification => self.field_modification.as_ref(),
            VMEvent::MethodEntry => self.method_entry.as_ref(),
            VMEvent::MethodExit => self.method_exit.as_ref(),
            VMEvent::MonitorWait => self.monitor_wait.as_ref(),
            VMEvent::MonitorWaited => self.monitor_waited.as_ref(),
            VMEvent::MonitorContendedEnter => self.monitor_contended_enter.as_ref(),
            VMEvent::MonitorContendedEntered => self.monitor_contended_entered.as_ref(),
            VMEvent::GarbageCollectionStart => self.garbage_collection_start.as_ref(),
            VMEvent::GarbageCollectionFinish => self.garbage_collection_finish.as_ref(),
            VMEvent::VMObjectAlloc => self.vm_object_alloc.as_ref(),
        }
    }

    /// Whether the event kind has a handler.
    pub fn has_handler(&self, event: VMEvent) -> (present: bool)
        ensures
            present == self@.dom().contains(event),
    {
        self.handler(event).is_some()
    }

    /// The callback table to install for these callbacks: the slot of each
    /// event kind that has a handler is populated, and no other slot is.
    pub fn native_callbacks(&self) -> (table: NativeEventCallbacks)
        ensures
            table@ == spec_native_callbacks(self@),
    {
        let slots: Vec<bool> = vec![
            self.vm_init.is_some(),
            self.vm_death.is_some(),
            self.thread_start.is_some(),
            self.thread_end.is_some(),
            false,
            false,
            false,
            self.vm_start.is_some(),
            self.exception.is_some(),
            self.exception_catch.is_some(),
            false,
            false,
            false,
            self.field_access.is_some(),
            self.field_modification.is_some(),
            self.method_entry.is_some(),
            self.method_exit.is_some(),
            false,
            false,
            false,
            false,
            false,
            false,
            self.monitor_wait.is_some(),
            self.monitor_waited.is_some(),
            self.monitor_contended_enter.is_some(),
            self.monitor_contended_entered.is_some(),
            false,
            false,
            false,
            false,
            self.garbage_collection_start.is_some(),
            self.garbage_collection_finish.is_some(),
            false,
            self.vm_object_alloc.is_some(),
        ];
        assert(slots@ =~= spec_native_callbacks(self@));
        NativeEventCallbacks::from_slots(slots)
    }
}

/// The callback table for a set of handlers: a slot is populated exactly if
/// it is the slot of an event kind that has a handler.
pub open spec fn spec_native_callbacks<H>(callbacks: Map<VMEvent, H>) -> Seq<bool> {
    Seq::new(
        NativeEventCallbacks::spec_slot_count(),
        |slot: int|
            match VMEvent::spec_from_code((JVMTI_MIN_EVENT_TYPE_VAL + slot) as u32) {
                Some(event) => callbacks.dom().contains(event),
                None => false,
            },
    )
}

/// The callback table has a trampoline for an event kind exactly if the
/// event kind has a handler, and nothing in the slots that belong to no
/// event kind.
pub proof fn lemma_table_follows_handlers<H>(callbacks: Map<VMEvent, H>, event: VMEvent)
    ensures
        spec_native_callbacks(callbacks).len() == NativeEventCallbacks::spec_slot_count(),
        spec_native_callbacks(callbacks)[event.spec_slot()] == callbacks.dom().contains(event),
        forall|slot: int|
            0 <= slot < NativeEventCallbacks::spec_slot_count() && (forall|other: VMEvent|
                other.spec_slot() != slot) ==> !#[trigger] spec_native_callbacks(callbacks)[slot],
{
    let table = spec_native_callbacks(callbacks);
    assert forall|slot: int|
        0 <= slot < NativeEventCallbacks::spec_slot_count() && (forall|other: VMEvent|
            other.spec_slot() != slot) implies !#[trigger] table[slot] by {
        let found = VMEvent::spec_from_code((JVMTI_MIN_EVENT_TYPE_VAL + slot) as u32);
        if found is Some {
            lemma_event_of_number((JVMTI_MIN_EVENT_TYPE_VAL + slot) as u32);
            assert(found->0.spec_slot() == slot);
        }
    }
}

} // verus!
