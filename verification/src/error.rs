//! Status codes of the interface and their translation.

use vstd::prelude::*;

verus! {

/// What a call into the interface can report.
///
/// `NoError` is the one variant that stands for success. `UnknownError`
/// stands for every status code that the interface does not define, and
/// `UnsupportedOperation` for a function that the environment does not
/// provide at all; no status code translates to the latter.
#[derive(Clone, Copy, Debug, PartialEq, Eq, Structural)]
pub enum NativeError {
    NoError,
    InvalidThread,
    InvalidThreadGroup,
    InvalidPriority,
    ThreadNotSuspended,
    ThreadSuspended,
    ThreadNotAlive,
    InvalidObject,
    InvalidClass,
    ClassNotPrepared,
    InvalidMethodId,
    InvalidLocation,
    InvalidFieldId,
    NoMoreFrames,
    OpaqueFrame,
    TypeMismatch,
    InvalidSlot,
    Duplicate,
    NotFound,
    InvalidMonitor,
    NotMonitorOwner,
    Interrupt,
    InvalidClassFormat,
    CircularClassDefinition,
    FailsVerification,
    UnsupportedRedefinitionMethodAdded,
    UnsupportedRedefinitionSchemaChanged,
    InvalidTypestate,
    UnsupportedRedefinitionHierarchyChanged,
    UnsupportedRedefinitionMethodDeleted,
    UnsupportedVersion,
    NamesDontMatch,
    UnsupportedRedefinitionClassModifiersChanged,
    UnsupportedRedefinitionMethodModifiersChanged,
    UnmodifiableClass,
    NotAvailable,
    MustPossessCapability,
    NullPointer,
    AbsentInformation,
    InvalidEventType,
    IllegalArgument,
    NativeMethod,
    ClassLoaderUnsupported,
    OutOfMemory,
    AccessDenied,
    WrongPhase,
    UnexpectedInternalError,
    ThreadNotAttached,
    Disconnected,
    UnsupportedOperation,
    UnknownError,
}

/// The variant that a status code stands for.
pub open spec fn error_of_code(code: u32) -> NativeError {
    if code == 0 {
        NativeError::NoError
    } else if code == 10 {
        NativeError::InvalidThread
    } else if code == 11 {
        NativeError::InvalidThreadGroup
    } else if code == 12 {
        NativeError::InvalidPriority
    } else if code == 13 {
        NativeError::ThreadNotSuspended
    } else if code == 14 {
        NativeError::ThreadSuspended
    } else if code == 15 {
        NativeError::ThreadNotAlive
    } else if code == 20 {
        NativeError::InvalidObject
    } else if code == 21 {
        NativeError::InvalidClass
    } else if code == 22 {
        NativeError::ClassNotPrepared
    } else if code == 23 {
        NativeError::InvalidMethodId
    } else if code == 24 {
        NativeError::InvalidLocation
    } else if code == 25 {
        NativeError::InvalidFieldId
    } else if code == 31 {
        NativeError::NoMoreFrames
    } else if code == 32 {
        NativeError::OpaqueFrame
    } else if code == 34 {
        NativeError::TypeMismatch
    } else if code == 35 {
        NativeError::InvalidSlot
    } else if code == 40 {
        NativeError::Duplicate
    } else if code == 41 {
        NativeError::NotFound
    } else if code == 50 {
        NativeError::InvalidMonitor
    } else if code == 51 {
        NativeError::NotMonitorOwner
    } else if code == 52 {
        NativeError::Interrupt
    } else if code == 60 {
        NativeError::InvalidClassFormat
    } else if code == 61 {
        NativeError::CircularClassDefinition
    } else if code == 62 {
        NativeError::FailsVerification
    } else if code == 63 {
        NativeError::UnsupportedRedefinitionMethodAdded
    } else if code == 64 {
        NativeError::UnsupportedRedefinitionSchemaChanged
    } else if code == 65 {
        NativeError::InvalidTypestate
    } else if code == 66 {
        NativeError::UnsupportedRedefinitionHierarchyChanged
    } else if code == 67 {
        NativeError::UnsupportedRedefinitionMethodDeleted
    } else if code == 68 {
        NativeError::UnsupportedVersion
    } else if code == 69 {
        NativeError::NamesDontMatch
    } else if code == 70 {
        NativeError::UnsupportedRedefinitionClassModifiersChanged
    } else if code == 71 {
        NativeError::UnsupportedRedefinitionMethodModifiersChanged
    } else if code == 79 {
        NativeError::UnmodifiableClass
    } else if code == 98 {
        NativeError::NotAvailable
    } else if code == 99 {
        NativeError::MustPossessCapability
    } else if code == 100 {
        NativeError::NullPointer
    } else if code == 101 {
        NativeError::AbsentInformation
    } else if code == 102 {
        NativeError::InvalidEventType
    } else if code == 103 {
        NativeError::IllegalArgument
    } else if code == 104 {
        NativeError::NativeMethod
    } else if code == 106 {
        NativeError::ClassLoaderUnsupported
    } else if code == 110 {
        NativeError::OutOfMemory
    } else if code == 111 {
        NativeError::AccessDenied
    } else if code == 112 {
        NativeError::WrongPhase
    } else if code == 113 {
        NativeError::UnexpectedInternalError
    } else if code == 115 {
        NativeError::ThreadNotAttached
    } else if code == 116 {
        NativeError::Disconnected
    } else {
        NativeError::UnknownError
    }
}

impl NativeError {
    /// The status code that the interface reports for this variant, if it
    /// reports one: none for `UnknownError` and `UnsupportedOperation`.
    pub open spec fn spec_code(self) -> Option<u32> {
        match self {
            NativeError::NoError => Some(0u32),
            NativeError::InvalidThread => Some(10u32),
            NativeError::InvalidThreadGroup => Some(11u32),
            NativeError::InvalidPriority => Some(12u32),
            NativeError::ThreadNotSuspended => Some(13u32),
            NativeError::ThreadSuspended => Some(14u32),
            NativeError::ThreadNotAlive => Some(15u32),
            NativeError::InvalidObject => Some(20u32),
            NativeError::InvalidClass => Some(21u32),
            NativeError::ClassNotPrepared => Some(22u32),
            NativeError::InvalidMethodId => Some(23u32),
            NativeError::InvalidLocation => Some(24u32),
            NativeError::InvalidFieldId => Some(25u32),
            NativeError::NoMoreFrames => Some(31u32),
            NativeError::OpaqueFrame => Some(32u32),
            NativeError::TypeMismatch => Some(34u32),
            NativeError::InvalidSlot => Some(35u32),
            NativeError::Duplicate => Some(40u32),
            NativeError::NotFound => Some(41u32),
            NativeError::InvalidMonitor => Some(50u32),
            NativeError::NotMonitorOwner => Some(51u32),
            NativeError::Interrupt => Some(52u32),
            NativeError::InvalidClassFormat => Some(60u32),
            NativeError::CircularClassDefinition => Some(61u32),
            NativeError::FailsVerification => Some(62u32),
            NativeError::UnsupportedRedefinitionMethodAdded => Some(63u32),
            NativeError::UnsupportedRedefinitionSchemaChanged => Some(64u32),
            NativeError::InvalidTypestate => Some(65u32),
            NativeError::UnsupportedRedefinitionHierarchyChanged => Some(66u32),
            NativeError::UnsupportedRedefinitionMethodDeleted => Some(67u32),
            NativeError::UnsupportedVersion => Some(68u32),
            NativeError::NamesDontMatch => Some(69u32),
            NativeError::UnsupportedRedefinitionClassModifiersChanged => Some(70u32),
            NativeError::UnsupportedRedefinitionMethodModifiersChanged => Some(71u32),
            NativeError::UnmodifiableClass => Some(79u32),
            NativeError::NotAvailable => Some(98u32),
            NativeError::MustPossessCapability => Some(99u32),
            NativeError::NullPointer => Some(100u32),
            NativeError::AbsentInformation => Some(101u32),
            NativeError::InvalidEventType => Some(102u32),
            NativeError::IllegalArgument => Some(103u32),
            NativeError::NativeMethod => Some(104u32),
            NativeError::ClassLoaderUnsupported => Some(106u32),
            NativeError::OutOfMemory => Some(110u32),
            NativeError::AccessDenied => Some(111u32),
            NativeError::WrongPhase => Some(112u32),
            NativeError::UnexpectedInternalError => Some(113u32),
            NativeError::ThreadNotAttached => Some(115u32),
            NativeError::Disconnected => Some(116u32),
            NativeError::UnsupportedOperation => None,
            NativeError::UnknownError => None,
        }
    }

    /// Whether this is what a call that was made and did not succeed reports:
    /// any variant but the success sentinel and `UnsupportedOperation`.
    pub open spec fn is_reported_failure(self) -> bool {
        self != NativeError::NoError && self != NativeError::UnsupportedOperation
    }
}

/// Translates a status code of the interface.
///
/// Zero is success, each code that the interface defines has its own
/// variant, and any other code is `UnknownError`.
pub fn wrap_error(code: u32) -> (error: NativeError)
    ensures
        error == error_of_code(code),
{
    match code {
        0 => NativeError::NoError,
        10 => NativeError::InvalidThread,
        11 => NativeError::InvalidThreadGroup,
        12 => NativeError::InvalidPriority,
        13 => NativeError::ThreadNotSuspended,
        14 => NativeError::ThreadSuspended,
        15 => NativeError::ThreadNotAlive,
        20 => NativeError::InvalidObject,
        21 => NativeError::InvalidClass,
        22 => NativeError::ClassNotPrepared,
        23 => NativeError::InvalidMethodId,
        24 => NativeError::InvalidLocation,
        25 => NativeError::InvalidFieldId,
        31 => NativeError::NoMoreFrames,
        32 => NativeError::OpaqueFrame,
        34 => NativeError::TypeMismatch,
        35 => NativeError::InvalidSlot,
        40 => NativeError::Duplicate,
        41 => NativeError::NotFound,
        50 => NativeError::InvalidMonitor,
        51 => NativeError::NotMonitorOwner,
        52 => NativeError::Interrupt,
        60 => NativeError::InvalidClassFormat,
        61 => NativeError::CircularClassDefinition,
        62 => NativeError::FailsVerification,
        63 => NativeError::UnsupportedRedefinitionMethodAdded,
        64 => NativeError::UnsupportedRedefinitionSchemaChanged,
        65 => NativeError::InvalidTypestate,
        66 => NativeError::UnsupportedRedefinitionHierarchyChanged,
        67 => NativeError::UnsupportedRedefinitionMethodDeleted,
        68 => NativeError::UnsupportedVersion,
        69 => NativeError::NamesDontMatch,
        70 => NativeError::UnsupportedRedefinitionClassModifiersChanged,
        71 => NativeError::UnsupportedRedefinitionMethodModifiersChanged,
        79 => NativeError::UnmodifiableClass,
        98 => NativeError::NotAvailable,
        99 => NativeError::MustPossessCapability,
        100 => NativeError::NullPointer,
        101 => NativeError::AbsentInformation,
        102 => NativeError::InvalidEventType,
        103 => NativeError::IllegalArgument,
        104 => NativeError::NativeMethod,
        106 => NativeError::ClassLoaderUnsupported,
        110 => NativeError::OutOfMemory,
        111 => NativeError::AccessDenied,
        112 => NativeError::WrongPhase,
        113 => NativeError::UnexpectedInternalError,
        115 => NativeError::ThreadNotAttached,
        116 => NativeError::Disconnected,
        _ => NativeError::UnknownError,
    }
}

/// What a status code means for an operation without a result: nothing
/// where the code is zero, the error that the code stands for otherwise.
pub open spec fn spec_status(code: u32) -> Option<NativeError> {
    if code == 0 {
        None
    } else {
        Some(error_of_code(code))
    }
}

/// Translates the status code of an operation without a result.
pub fn status(code: u32) -> (outcome: Option<NativeError>)
    ensures
        outcome == spec_status(code),
{
    match wrap_error(code) {
        NativeError::NoError => None,
        err => Some(err),
    }
}

/// Translation is total and keeps the code: the success sentinel comes from
/// zero alone, a variant with a code of its own comes from that code alone,
/// `UnknownError` comes from exactly the codes that no variant owns, and
/// `UnsupportedOperation` comes from no code.
pub proof fn lemma_translation_keeps_code(code: u32)
    ensures
        error_of_code(code) == NativeError::NoError <==> code == 0,
        error_of_code(code) != NativeError::UnsupportedOperation,
        error_of_code(code) != NativeError::UnknownError ==> error_of_code(code).spec_code()
            == Some(code),
        error_of_code(code) == NativeError::UnknownError <==> (forall|e: NativeError|
            e.spec_code() != Some(code)),
{
    if error_of_code(code) == NativeError::UnknownError {
        assert forall|e: NativeError| e.spec_code() != Some(code) by {}
    } else {
        assert(error_of_code(code).spec_code() == Some(code));
    }
}

/// The failures that a call can report are exactly the translations of the
/// codes other than zero.
pub proof fn lemma_reported_failures(error: NativeError)
    ensures
        error.is_reported_failure() <==> (exists|code: u32|
            code != 0 && #[trigger] error_of_code(code) == error),
{
    if error.is_reported_failure() {
        let code: u32 = match error.spec_code() {
            Some(code) => code,
            None => 1,
        };
        assert(code != 0 && error_of_code(code) == error);
    }
}

/// Every variant that has a code translates back from it.
pub proof fn lemma_code_translates_back(error: NativeError)
    requires
        error.spec_code() is Some,
    ensures
        error_of_code(error.spec_code()->0) == error,
{
}

} // verus!
