use jvmti::version::VersionNumber;

#[test]
fn decodes_major_minor_micro() {
    let version = VersionNumber::from_u32(&0x0001_0203);
    assert_eq!(version.major_version, 1);
    assert_eq!(version.minor_version, 2);
    assert_eq!(version.micro_version, 3);
}

#[test]
fn interface_type_bits_carry_no_version() {
    let version = VersionNumber::from_u32(&0x3001_0203);
    assert_eq!(version, VersionNumber { major_version: 1, minor_version: 2, micro_version: 3 });
    let version = VersionNumber::from_u32(&0xF000_0000);
    assert_eq!(version, VersionNumber { major_version: 0, minor_version: 0, micro_version: 0 });
}

#[test]
fn decodes_a_real_version_word() {
    let version = VersionNumber::from_u32(&0x3001_0266);
    assert_eq!(version, VersionNumber { major_version: 1, minor_version: 2, micro_version: 102 });
}

#[test]
fn decodes_zero() {
    let version = VersionNumber::from_u32(&0);
    assert_eq!(version, VersionNumber { major_version: 0, minor_version: 0, micro_version: 0 });
}

#[test]
fn decodes_the_largest_word() {
    let version = VersionNumber::from_u32(&0xFFFF_FFFF);
    assert_eq!(
        version,
        VersionNumber { major_version: 0x0FFF, minor_version: 0xFF, micro_version: 0xFF }
    );
}

#[test]
fn fields_do_not_leak_into_each_other() {
    assert_eq!(
        VersionNumber::from_u32(&0x0FFF_0000),
        VersionNumber { major_version: 0x0FFF, minor_version: 0, micro_version: 0 }
    );
    assert_eq!(
        VersionNumber::from_u32(&0x0000_FF00),
        VersionNumber { major_version: 0, minor_version: 0xFF, micro_version: 0 }
    );
    assert_eq!(
        VersionNumber::from_u32(&0x0000_00FF),
        VersionNumber { major_version: 0, minor_version: 0, micro_version: 0xFF }
    );
}

#[test]
fn signed_words_are_read_without_sign() {
    assert_eq!(
        VersionNumber::from_native(0x3001_0203),
        VersionNumber { major_version: 1, minor_version: 2, micro_version: 3 }
    );
    assert_eq!(
        VersionNumber::from_native(-1),
        VersionNumber { major_version: 0x0FFF, minor_version: 0xFF, micro_version: 0xFF }
    );
    assert_eq!(
        VersionNumber::from_native(i32::MIN),
        VersionNumber { major_version: 0, minor_version: 0, micro_version: 0 }
    );
    assert_eq!(
        VersionNumber::from_native(-256),
        VersionNumber { major_version: 0x0FFF, minor_version: 0xFF, micro_version: 0 }
    );
}
