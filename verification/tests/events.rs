use jvmti::event::{
    notification_mode, EventCallbacks, VMEvent, JVMTI_DISABLE, JVMTI_ENABLE,
    JVMTI_MAX_EVENT_TYPE_VAL, JVMTI_MIN_EVENT_TYPE_VAL,
};
use jvmti::event_handler::CallbackRegistry;
use jvmti::native::NativeEventCallbacks;

const KINDS: [(VMEvent, u32); 18] = [
    (VMEvent::VMInit, 50),
    (VMEvent::VMDeath, 51),
    (VMEvent::ThreadStart, 52),
    (VMEvent::ThreadEnd, 53),
    (VMEvent::VMStart, 57),
    (VMEvent::Exception, 58),
    (VMEvent::ExceptionCatch, 59),
    (VMEvent::FieldAccess, 63),
    (VMEvent::FieldModification, 64),
    (VMEvent::MethodEntry, 65),
    (VMEvent::MethodExit, 66),
    (VMEvent::MonitorWait, 73),
    (VMEvent::MonitorWaited, 74),
    (VMEvent::MonitorContendedEnter, 75),
    (VMEvent::MonitorContendedEntered, 76),
    (VMEvent::GarbageCollectionStart, 81),
    (VMEvent::GarbageCollectionFinish, 82),
    (VMEvent::VMObjectAlloc, 84),
];

fn populated(table: &NativeEventCallbacks) -> Vec<usize> {
    (0..64).filter(|slot| table.is_populated(*slot)).collect()
}

#[test]
fn event_kinds_have_their_numbers() {
    for (event, code) in KINDS.iter() {
        assert_eq!(event.code(), *code);
    }
    assert_eq!(JVMTI_MIN_EVENT_TYPE_VAL, 50);
    assert_eq!(JVMTI_MAX_EVENT_TYPE_VAL, 84);
}

#[test]
fn numbers_lead_back_to_their_event_kind() {
    for (event, code) in KINDS.iter() {
        assert_eq!(VMEvent::from_code(*code), Some(*event));
        assert_eq!(VMEvent::from_code(event.code()), Some(*event));
    }
}

#[test]
fn other_numbers_lead_to_no_event_kind() {
    let known: Vec<u32> = KINDS.iter().map(|(_, code)| *code).collect();
    for code in 0..200u32 {
        if !known.contains(&code) {
            assert_eq!(VMEvent::from_code(code), None, "code {}", code);
        }
    }
    assert_eq!(VMEvent::from_code(54), None);
    assert_eq!(VMEvent::from_code(72), None);
    assert_eq!(VMEvent::from_code(83), None);
    assert_eq!(VMEvent::from_code(49), None);
    assert_eq!(VMEvent::from_code(85), None);
    assert_eq!(VMEvent::from_code(u32::MAX), None);
}

#[test]
fn slots_follow_the_numbers() {
    assert_eq!(VMEvent::VMInit.slot(), 0);
    assert_eq!(VMEvent::VMDeath.slot(), 1);
    assert_eq!(VMEvent::VMStart.slot(), 7);
    assert_eq!(VMEvent::MethodEntry.slot(), 15);
    assert_eq!(VMEvent::MonitorWait.slot(), 23);
    assert_eq!(VMEvent::VMObjectAlloc.slot(), 34);
    for (event, code) in KINDS.iter() {
        assert_eq!(event.slot(), (*code - 50) as usize);
        assert!(event.slot() < NativeEventCallbacks::slot_count());
    }
}

#[test]
fn slots_are_distinct() {
    for (first, _) in KINDS.iter() {
        for (second, _) in KINDS.iter() {
            assert_eq!(first.slot() == second.slot(), first == second);
        }
    }
}

#[test]
fn mode_words_are_enable_and_disable() {
    assert_eq!(notification_mode(true), 1);
    assert_eq!(notification_mode(false), 0);
    assert_eq!(notification_mode(true), JVMTI_ENABLE);
    assert_eq!(notification_mode(false), JVMTI_DISABLE);
}

#[test]
fn new_callbacks_have_no_handler() {
    let callbacks: EventCallbacks<u32> = EventCallbacks::new();
    for (event, _) in KINDS.iter() {
        assert_eq!(callbacks.handler(*event), None);
        assert!(!callbacks.has_handler(*event));
    }
    assert_eq!(populated(&callbacks.native_callbacks()), Vec::<usize>::new());
}

#[test]
fn handlers_are_found_by_event_kind() {
    let mut callbacks: EventCallbacks<&str> = EventCallbacks::new();
    callbacks.vm_init = Some("init");
    callbacks.method_entry = Some("entry");
    callbacks.garbage_collection_finish = Some("gc");
    assert_eq!(callbacks.handler(VMEvent::VMInit), Some(&"init"));
    assert_eq!(callbacks.handler(VMEvent::MethodEntry), Some(&"entry"));
    assert_eq!(callbacks.handler(VMEvent::GarbageCollectionFinish), Some(&"gc"));
    assert_eq!(callbacks.handler(VMEvent::VMDeath), None);
    assert_eq!(callbacks.handler(VMEvent::MethodExit), None);
    assert_eq!(callbacks.handler(VMEvent::GarbageCollectionStart), None);
    assert!(callbacks.has_handler(VMEvent::VMInit));
    assert!(!callbacks.has_handler(VMEvent::VMStart));
}

#[test]
fn each_field_belongs_to_its_event_kind() {
    let callbacks = EventCallbacks {
        vm_init: Some(50u32),
        vm_death: Some(51),
        thread_start: Some(52),
        thread_end: Some(53),
        vm_start: Some(57),
        exception: Some(58),
        exception_catch: Some(59),
        field_access: Some(63),
        field_modification: Some(64),
        method_entry: Some(65),
        method_exit: Some(66),
        monitor_wait: Some(73),
        monitor_waited: Some(74),
        monitor_contended_enter: Some(75),
        monitor_contended_entered: Some(76),
        garbage_collection_start: Some(81),
        garbage_collection_finish: Some(82),
        vm_object_alloc: Some(84),
    };
    for (event, code) in KINDS.iter() {
        assert_eq!(callbacks.handler(*event), Some(code));
    }
    let slots: Vec<usize> = KINDS.iter().map(|(_, code)| (*code - 50) as usize).collect();
    assert_eq!(populated(&callbacks.native_callbacks()), slots);
}

#[test]
fn table_has_a_trampoline_where_there_is_a_handler() {
    let mut callbacks: EventCallbacks<u8> = EventCallbacks::new();
    callbacks.vm_death = Some(1);
    callbacks.thread_start = Some(2);
    callbacks.monitor_contended_entered = Some(3);
    callbacks.vm_object_alloc = Some(4);
    let table = callbacks.native_callbacks();
    assert_eq!(populated(&table), vec![1, 2, 26, 34]);
    assert!(table.is_populated(VMEvent::VMDeath.slot()));
    assert!(!table.is_populated(VMEvent::VMInit.slot()));
}

#[test]
fn table_has_one_slot_for_each_event_number() {
    assert_eq!(NativeEventCallbacks::slot_count(), 35);
    let callbacks: EventCallbacks<u8> = EventCallbacks::new();
    let table = callbacks.native_callbacks();
    assert!(!table.is_populated(34));
    assert!(!table.is_populated(35));
    assert!(!table.is_populated(usize::MAX));
}

#[test]
fn registry_starts_unconfigured() {
    let registry: CallbackRegistry<u8> = CallbackRegistry::new();
    assert!(!registry.configured());
    for (event, _) in KINDS.iter() {
        assert_eq!(registry.handler(*event), None);
    }
    assert_eq!(populated(&registry.registered_callbacks()), Vec::<usize>::new());
}

#[test]
fn registry_holds_what_was_registered() {
    let mut registry: CallbackRegistry<&str> = CallbackRegistry::new();
    let mut callbacks = EventCallbacks::new();
    callbacks.thread_start = Some("start");
    callbacks.thread_end = Some("end");
    registry.register(callbacks);
    assert!(registry.configured());
    assert_eq!(registry.handler(VMEvent::ThreadStart), Some(&"start"));
    assert_eq!(registry.handler(VMEvent::ThreadEnd), Some(&"end"));
    assert_eq!(registry.handler(VMEvent::VMInit), None);
    assert_eq!(populated(&registry.registered_callbacks()), vec![2, 3]);
}

#[test]
fn registering_replaces_the_whole_table() {
    let mut registry: CallbackRegistry<&str> = CallbackRegistry::new();
    let mut first = EventCallbacks::new();
    first.vm_init = Some("first init");
    first.exception = Some("first exception");
    registry.register(first);
    let mut second = EventCallbacks::new();
    second.vm_init = Some("second init");
    second.field_access = Some("second access");
    registry.register(second);
    assert_eq!(registry.handler(VMEvent::VMInit), Some(&"second init"));
    assert_eq!(registry.handler(VMEvent::FieldAccess), Some(&"second access"));
    assert_eq!(registry.handler(VMEvent::Exception), None);
    assert_eq!(populated(&registry.registered_callbacks()), vec![0, 13]);
}

#[test]
fn registering_nothing_leaves_a_configured_registry_without_handlers() {
    let mut registry: CallbackRegistry<&str> = CallbackRegistry::new();
    let mut first = EventCallbacks::new();
    first.vm_start = Some("start");
    registry.register(first);
    registry.register(EventCallbacks::new());
    assert!(registry.configured());
    for (event, _) in KINDS.iter() {
        assert_eq!(registry.handler(*event), None);
    }
}
