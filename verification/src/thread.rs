//! Threads of the virtual machine, as the interface describes them.

use vstd::prelude::*;
use crate::error::{error_of_code, wrap_error, NativeError};
use crate::native::{JavaThread, NativeThreadInfo, NativeThreadInfoView};
use crate::util::{decode_name, spec_decode_name};

verus! {

/// The identity of a thread: the handle that the virtual machine gave.
#[derive(Clone, Copy, Debug, PartialEq, Eq, Structural)]
pub struct ThreadId {
    pub native_id: JavaThread,
}

/// What the virtual machine told about a thread at one moment.
#[derive(Clone, Debug, PartialEq, Eq)]
pub struct Thread {
    pub id: ThreadId,
    pub name: String,
    pub priority: u32,
    pub is_daemon: bool,
}

/// A thread description as plain values.
pub struct ThreadView {
    pub id: ThreadId,
    pub name: Seq<char>,
    pub priority: u32,
    pub is_daemon: bool,
}

impl View for Thread {
    type V = ThreadView;

    open spec fn view(&self) -> ThreadView {
        ThreadView {
            id: self.id,
            name: self.name@,
            priority: self.priority,
            is_daemon: self.is_daemon,
        }
    }
}

/// The priority of a record as this crate keeps it: the same 32 bits, read
/// as a number without sign.
pub open spec fn spec_priority(priority: i32) -> u32 {
    if priority >= 0 {
        priority as u32
    } else {
        (priority + 0x1_0000_0000) as u32
    }
}

/// The description of the thread `handle` that a record gives: the decoded
/// name, the priority, and the daemon flag, which is set by any byte but
/// zero.
pub open spec fn spec_thread(handle: JavaThread, info: NativeThreadInfoView) -> ThreadView {
    ThreadView {
        id: ThreadId { native_id: handle },
        name: spec_decode_name(info.name),
        priority: spec_priority(info.priority),
        is_daemon: info.is_daemon != 0,
    }
}

/// What a thread-info query comes to, given what the environment answered:
/// an environment without the function is `UnsupportedOperation`, status
/// zero is the thread that the record describes, and any other status is
/// its error.
pub open spec fn spec_thread_info(
    handle: JavaThread,
    reply: Option<(u32, NativeThreadInfoView)>,
) -> Result<ThreadView, NativeError> {
    match reply {
        None => Err(NativeError::UnsupportedOperation),
        Some((code, info)) => if code == 0 {
            Ok(spec_thread(handle, info))
        } else {
            Err(error_of_code(code))
        },
    }
}

/// The view of an answer to a thread-info query.
pub open spec fn reply_view(reply: Option<(u32, NativeThreadInfo)>) -> Option<
    (u32, NativeThreadInfoView),
> {
    match reply {
        Some((code, info)) => Some((code, info@)),
        None => None,
    }
}

/// Whether a result of this crate is the given result over plain values.
pub open spec fn result_is(
    result: Result<Thread, NativeError>,
    expected: Result<ThreadView, NativeError>,
) -> bool {
    match result {
        Ok(thread) => expected == Ok::<ThreadView, NativeError>(thread@),
        Err(error) => expected == Err::<ThreadView, NativeError>(error),
    }
}

impl ThreadId {
    /// The identity that a handle stands for.
    pub fn new(native_id: JavaThread) -> (id: ThreadId)
        ensures
            id.native_id == native_id,
    {
        ThreadId { native_id }
    }
}

impl Thread {
    /// Builds the description of the thread `handle` from the record that
    /// the virtual machine filled for it.
    pub fn from_native(handle: &JavaThread, info: &NativeThreadInfo) -> (thread: Thread)
        ensures
            thread@ == spec_thread(*handle, info@),
    {
        let signed: i32 = info.priority;
        let priority = #[verifier::truncate] (signed as u32);
        assert(priority == spec_priority(signed)) by (bit_vector)
            requires
                priority == signed as u32,
        ;
        Thread {
            id: ThreadId::new(*handle),
            name: decode_name(&info.name),
            priority,
            is_daemon: info.is_daemon > 0,
        }
    }

    /// Decides what a thread-info query comes to, given what the environment
    /// answered to it.
    pub fn from_reply(handle: &JavaThread, reply: &Option<(u32, NativeThreadInfo)>) -> (result:
        Result<Thread, NativeError>)
        ensures
            result_is(result, spec_thread_info(*handle, reply_view(*reply))),
    {
        match reply {
            Some((code, info)) => {
                match wrap_error(*code) {
                    NativeError::NoError => Ok(Thread::from_native(handle, info)),
                    err => Err(err),
                }
            },
            None => Err(NativeError::UnsupportedOperation),
        }
    }
}

} // verus!
