//! The interface as the virtual machine defines it: plain records in the
//! layout of its structures, and the functions of an environment.
//!
//! Nothing here interprets a value. The records hold what crosses the
//! boundary, so that the rest of the crate can work on them without a
//! running virtual machine.

use vstd::prelude::*;

verus! {

/// A thread as the virtual machine names it: the address that its handle
/// holds. Two handles name the same thread exactly if the addresses agree.
/// A handle is borrowed from the virtual machine and is good only while the
/// query or the event that delivered it lasts.
#[derive(Clone, Copy, Debug, PartialEq, Eq, Structural)]
pub struct JavaThread {
    pub address: usize,
}

/// The capability record of the interface: 128 bits in four words. The
/// first 41 bits each stand for one capability, the lowest bit of `word_1`
/// first; the other bits are reserved.
#[derive(Clone, Copy, Debug, PartialEq, Eq, Structural)]
pub struct NativeCapabilities {
    pub word_1: u32,
    pub word_2: u32,
    pub word_3: u32,
    pub word_4: u32,
}

impl NativeCapabilities {
    /// Whether every reserved bit of the record is zero.
    pub open spec fn reserved_bits_are_zero(self) -> bool {
        self.word_2 <= 0x0000_01FF && self.word_3 == 0 && self.word_4 == 0
    }

    /// The record that holds each bit that either of the two holds. This is
    /// what the interface documents for adding capabilities to those that
    /// an environment has.
    pub open spec fn spec_union(self, other: NativeCapabilities) -> NativeCapabilities {
        NativeCapabilities {
            word_1: self.word_1 | other.word_1,
            word_2: self.word_2 | other.word_2,
            word_3: self.word_3 | other.word_3,
            word_4: self.word_4 | other.word_4,
        }
    }
}

/// The part of a thread-info record that this crate reads.
///
/// `name` is the buffer that the name pointer leads to, as far as the host
/// could read it, or nothing for a null pointer. Its content ends before the
/// first zero byte, if it holds one.
#[derive(Clone, Debug, PartialEq, Eq)]
pub struct NativeThreadInfo {
    pub name: Option<Vec<u8>>,
    pub priority: i32,
    pub is_daemon: u8,
}

/// A thread-info record as plain values.
pub struct NativeThreadInfoView {
    pub name: Option<Seq<u8>>,
    pub priority: i32,
    pub is_daemon: u8,
}

impl View for NativeThreadInfo {
    type V = NativeThreadInfoView;

    open spec fn view(&self) -> NativeThreadInfoView {
        NativeThreadInfoView {
            name: match self.name {
                Some(buffer) => Some(buffer@),
                None => None,
            },
            priority: self.priority,
            is_daemon: self.is_daemon,
        }
    }
}

/// The callback table of the interface, as far as this crate fills it.
///
/// The table has one slot for each event number of the interface, in the
/// order of the numbers. A slot either holds the trampoline of its event
/// kind, a fixed entry point that the host provides, or is null; the record
/// keeps which of the two.
#[derive(Debug, PartialEq, Eq)]
pub struct NativeEventCallbacks {
    slots: Vec<bool>,
}

impl View for NativeEventCallbacks {
    type V = Seq<bool>;

    /// For each slot, whether it holds its trampoline.
    closed spec fn view(&self) -> Seq<bool> {
        self.slots@
    }
}

impl NativeEventCallbacks {
    /// A table has one slot for each event number, no more and no fewer.
    #[verifier::type_invariant]
    spec fn has_every_slot(self) -> bool {
        self.slots@.len() == Self::spec_slot_count()
    }

    /// The number of slots of the table.
    pub open spec fn spec_slot_count() -> nat {
        35
    }

    /// The number of slots of the table.
    pub fn slot_count() -> (count: usize)
        ensures
            count == Self::spec_slot_count(),
    {
        35
    }

    /// A table with the given slots.
    pub(crate) fn from_slots(slots: Vec<bool>) -> (table: NativeEventCallbacks)
        requires
            slots@.len() == Self::spec_slot_count(),
        ensures
            table@ == slots@,
    {
        NativeEventCallbacks { slots }
    }

    /// Whether the slot holds its trampoline. A position past the last slot
    /// holds none.
    pub fn is_populated(&self, slot: usize) -> (populated: bool)
        ensures
            self@.len() == Self::spec_slot_count(),
            populated == (slot < Self::spec_slot_count() && self@[slot as int]),
    {
        proof {
            use_type_invariant(self);
        }
        slot < self.slots.len() && self.slots[slot]
    }
}

/// The functions of an environment that this crate calls.
///
/// A host implements the trait over its environment handle; each method
/// makes the one call that its name says and hands back what the virtual
/// machine answered. The handle itself does not change by a call: what a
/// call changes lies in the virtual machine. The crate promises what a
/// `requires` says of the arguments. Nothing is promised of an answer: the
/// crate treats every value as possible, and two calls with the same
/// arguments may be answered differently.
pub trait NativeInterface {
    /// `GetVersionNumber`: the version word.
    fn get_version_number(&self) -> i32;

    /// `AddCapabilities`: the status code. The record asks for defined
    /// capabilities only.
    fn add_capabilities(&self, capabilities: &NativeCapabilities) -> u32
        requires
            capabilities.reserved_bits_are_zero(),
    ;

    /// `GetCapabilities`: the record as the environment filled it.
    fn get_capabilities(&self) -> NativeCapabilities;

    /// `SetEventCallbacks`, with the table that `callbacks` describes and
    /// the table's size: the status code.
    fn set_event_callbacks(&self, callbacks: &NativeEventCallbacks) -> u32;

    /// `SetEventNotificationMode` for all threads: the status code. The mode
    /// is the word for on or the word for off, and the event number is that
    /// of an event kind that an agent can have a callback for.
    fn set_event_notification_mode(&self, mode: u32, event: u32) -> u32
        requires
            mode == 0 || mode == 1,
            50 <= event <= 84,
    ;

    /// `GetThreadInfo`: the status code and the record, or nothing where the
    /// environment's function table has no such function.
    fn get_thread_info(&self, thread: &JavaThread) -> Option<(u32, NativeThreadInfo)>;
}

} // verus!
