use jvmti::error::{status, wrap_error, NativeError};

const DEFINED: [(u32, NativeError); 49] = [
    (0, NativeError::NoError),
    (10, NativeError::InvalidThread),
    (11, NativeError::InvalidThreadGroup),
    (12, NativeError::InvalidPriority),
    (13, NativeError::ThreadNotSuspended),
    (14, NativeError::ThreadSuspended),
    (15, NativeError::ThreadNotAlive),
    (20, NativeError::InvalidObject),
    (21, NativeError::InvalidClass),
    (22, NativeError::ClassNotPrepared),
    (23, NativeError::InvalidMethodId),
    (24, NativeError::InvalidLocation),
    (25, NativeError::InvalidFieldId),
    (31, NativeError::NoMoreFrames),
    (32, NativeError::OpaqueFrame),
    (34, NativeError::TypeMismatch),
    (35, NativeError::InvalidSlot),
    (40, NativeError::Duplicate),
    (41, NativeError::NotFound),
    (50, NativeError::InvalidMonitor),
    (51, NativeError::NotMonitorOwner),
    (52, NativeError::Interrupt),
    (60, NativeError::InvalidClassFormat),
    (61, NativeError::CircularClassDefinition),
    (62, NativeError::FailsVerification),
    (63, NativeError::UnsupportedRedefinitionMethodAdded),
    (64, NativeError::UnsupportedRedefinitionSchemaChanged),
    (65, NativeError::InvalidTypestate),
    (66, NativeError::UnsupportedRedefinitionHierarchyChanged),
    (67, NativeError::UnsupportedRedefinitionMethodDeleted),
    (68, NativeError::UnsupportedVersion),
    (69, NativeError::NamesDontMatch),
    (70, NativeError::UnsupportedRedefinitionClassModifiersChanged),
    (71, NativeError::UnsupportedRedefinitionMethodModifiersChanged),
    (79, NativeError::UnmodifiableClass),
    (98, NativeError::NotAvailable),
    (99, NativeError::MustPossessCapability),
    (100, NativeError::NullPointer),
    (101, NativeError::AbsentInformation),
    (102, NativeError::InvalidEventType),
    (103, NativeError::IllegalArgument),
    (104, NativeError::NativeMethod),
    (106, NativeError::ClassLoaderUnsupported),
    (110, NativeError::OutOfMemory),
    (111, NativeError::AccessDenied),
    (112, NativeError::WrongPhase),
    (113, NativeError::UnexpectedInternalError),
    (115, NativeError::ThreadNotAttached),
    (116, NativeError::Disconnected),
];

#[test]
fn zero_is_the_success_sentinel() {
    assert_eq!(wrap_error(0), NativeError::NoError);
}

#[test]
fn known_codes_have_their_named_variant() {
    assert_eq!(wrap_error(79), NativeError::UnmodifiableClass);
    assert_eq!(wrap_error(98), NativeError::NotAvailable);
    assert_eq!(wrap_error(99), NativeError::MustPossessCapability);
    assert_eq!(wrap_error(100), NativeError::NullPointer);
    assert_eq!(wrap_error(101), NativeError::AbsentInformation);
    assert_eq!(wrap_error(102), NativeError::InvalidEventType);
    assert_eq!(wrap_error(103), NativeError::IllegalArgument);
    assert_eq!(wrap_error(104), NativeError::NativeMethod);
    assert_eq!(wrap_error(106), NativeError::ClassLoaderUnsupported);
    assert_eq!(wrap_error(110), NativeError::OutOfMemory);
    assert_eq!(wrap_error(112), NativeError::WrongPhase);
    assert_eq!(wrap_error(15), NativeError::ThreadNotAlive);
}

#[test]
fn every_defined_code_is_translated() {
    for (code, error) in DEFINED.iter() {
        assert_eq!(wrap_error(*code), *error, "code {}", code);
    }
}

#[test]
fn every_other_code_is_unknown() {
    let defined: Vec<u32> = DEFINED.iter().map(|(code, _)| *code).collect();
    for code in 0..1000u32 {
        if !defined.contains(&code) {
            assert_eq!(wrap_error(code), NativeError::UnknownError, "code {}", code);
        }
    }
    assert_eq!(wrap_error(1), NativeError::UnknownError);
    assert_eq!(wrap_error(78), NativeError::UnknownError);
    assert_eq!(wrap_error(80), NativeError::UnknownError);
    assert_eq!(wrap_error(97), NativeError::UnknownError);
    assert_eq!(wrap_error(105), NativeError::UnknownError);
    assert_eq!(wrap_error(114), NativeError::UnknownError);
    assert_eq!(wrap_error(117), NativeError::UnknownError);
    assert_eq!(wrap_error(999_999), NativeError::UnknownError);
    assert_eq!(wrap_error(u32::MAX), NativeError::UnknownError);
}

#[test]
fn no_code_translates_to_unsupported_operation() {
    for code in 0..100_000u32 {
        assert_ne!(wrap_error(code), NativeError::UnsupportedOperation);
    }
}

#[test]
fn only_zero_translates_to_success() {
    for code in 1..100_000u32 {
        assert_ne!(wrap_error(code), NativeError::NoError);
    }
}

#[test]
fn status_is_nothing_on_success() {
    assert_eq!(status(0), None);
}

#[test]
fn status_is_the_error_otherwise() {
    assert_eq!(status(112), Some(NativeError::WrongPhase));
    assert_eq!(status(102), Some(NativeError::InvalidEventType));
    assert_eq!(status(99), Some(NativeError::MustPossessCapability));
    assert_eq!(status(7), Some(NativeError::UnknownError));
}
