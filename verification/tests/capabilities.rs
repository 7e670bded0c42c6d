use jvmti::capabilities::Capabilities;
use jvmti::native::NativeCapabilities;

fn record(word_1: u32, word_2: u32) -> NativeCapabilities {
    NativeCapabilities { word_1, word_2, word_3: 0, word_4: 0 }
}

fn all() -> Capabilities {
    Capabilities::from_native(&record(0xFFFF_FFFF, 0x0000_01FF))
}

#[test]
fn new_capabilities_hold_nothing() {
    let capabilities = Capabilities::new();
    assert_eq!(capabilities.to_native(), record(0, 0));
    assert!(!capabilities.can_tag_objects);
    assert!(!capabilities.can_generate_resource_exhaustion_threads_events);
    assert_eq!(capabilities, Capabilities::from_native(&record(0, 0)));
}

#[test]
fn each_flag_sits_at_its_bit() {
    let mut capabilities = Capabilities::new();
    capabilities.can_tag_objects = true;
    assert_eq!(capabilities.to_native(), record(0x0000_0001, 0));

    let mut capabilities = Capabilities::new();
    capabilities.can_generate_field_modification_events = true;
    assert_eq!(capabilities.to_native(), record(0x0000_0002, 0));

    let mut capabilities = Capabilities::new();
    capabilities.can_get_bytecodes = true;
    assert_eq!(capabilities.to_native(), record(0x0000_0008, 0));

    let mut capabilities = Capabilities::new();
    capabilities.can_generate_exception_events = true;
    assert_eq!(capabilities.to_native(), record(0x0002_0000, 0));

    let mut capabilities = Capabilities::new();
    capabilities.can_generate_method_entry_events = true;
    assert_eq!(capabilities.to_native(), record(0x0100_0000, 0));

    let mut capabilities = Capabilities::new();
    capabilities.can_generate_garbage_collection_events = true;
    assert_eq!(capabilities.to_native(), record(0x8000_0000, 0));

    let mut capabilities = Capabilities::new();
    capabilities.can_generate_object_free_events = true;
    assert_eq!(capabilities.to_native(), record(0, 0x0000_0001));

    let mut capabilities = Capabilities::new();
    capabilities.can_retransform_classes = true;
    assert_eq!(capabilities.to_native(), record(0, 0x0000_0020));

    let mut capabilities = Capabilities::new();
    capabilities.can_generate_resource_exhaustion_threads_events = true;
    assert_eq!(capabilities.to_native(), record(0, 0x0000_0100));
}

#[test]
fn several_flags_add_up() {
    let mut capabilities = Capabilities::new();
    capabilities.can_tag_objects = true;
    capabilities.can_generate_field_access_events = true;
    capabilities.can_generate_monitor_events = true;
    capabilities.can_force_early_return = true;
    capabilities.can_get_constant_pool = true;
    assert_eq!(capabilities.to_native(), record(0x1000_0005, 0x0000_000A));
}

#[test]
fn all_flags_fill_the_defined_bits_only() {
    let native = all().to_native();
    assert_eq!(native, record(0xFFFF_FFFF, 0x0000_01FF));
    assert_eq!(native.word_3, 0);
    assert_eq!(native.word_4, 0);
}

#[test]
fn flags_are_read_from_their_bits() {
    let capabilities = Capabilities::from_native(&record(0x0000_0005, 0x0000_0002));
    let mut expected = Capabilities::new();
    expected.can_tag_objects = true;
    expected.can_generate_field_access_events = true;
    expected.can_force_early_return = true;
    assert_eq!(capabilities, expected);
}

#[test]
fn reserved_bits_are_not_read() {
    let native = NativeCapabilities {
        word_1: 0,
        word_2: 0xFFFF_FE00,
        word_3: 0xFFFF_FFFF,
        word_4: 0xFFFF_FFFF,
    };
    assert_eq!(Capabilities::from_native(&native), Capabilities::new());
}

#[test]
fn round_trip_keeps_every_single_bit() {
    for position in 0..41u32 {
        let native = if position < 32 {
            record(1 << position, 0)
        } else {
            record(0, 1 << (position - 32))
        };
        let capabilities = Capabilities::from_native(&native);
        assert_ne!(capabilities, Capabilities::new(), "bit {}", position);
        assert_eq!(capabilities.to_native(), native, "bit {}", position);
        assert_eq!(Capabilities::from_native(&capabilities.to_native()), capabilities);
    }
}

#[test]
fn round_trip_keeps_mixed_sets() {
    let words: [(u32, u32); 6] = [
        (0, 0),
        (0xFFFF_FFFF, 0x1FF),
        (0xAAAA_AAAA, 0x155),
        (0x5555_5555, 0x0AA),
        (0x8000_0001, 0x101),
        (0x0123_4567, 0x089),
    ];
    for (word_1, word_2) in words.iter() {
        let capabilities = Capabilities::from_native(&record(*word_1, *word_2));
        assert_eq!(capabilities.to_native(), record(*word_1, *word_2));
        assert_eq!(Capabilities::from_native(&capabilities.to_native()), capabilities);
    }
}

#[test]
fn merge_is_the_union() {
    let left = Capabilities::from_native(&record(0x0000_00F0, 0x003));
    let right = Capabilities::from_native(&record(0x0000_003C, 0x101));
    let merged = left.merge(&right);
    assert_eq!(merged.to_native(), record(0x0000_00FC, 0x103));
    assert_eq!(right.merge(&left), merged);
}

#[test]
fn merge_clears_nothing() {
    let left = Capabilities::from_native(&record(0x8000_0001, 0x100));
    assert_eq!(left.merge(&Capabilities::new()), left);
    assert_eq!(Capabilities::new().merge(&left), left);
    assert_eq!(left.merge(&left), left);
    assert_eq!(left.merge(&all()), all());
}

#[test]
fn union_of_records_is_union_of_sets() {
    let pairs: [((u32, u32), (u32, u32)); 3] = [
        ((0x0000_0001, 0x001), (0x8000_0000, 0x100)),
        ((0x0F0F_0F0F, 0x0F0), (0x00FF_00FF, 0x00F)),
        ((0, 0), (0xFFFF_FFFF, 0x1FF)),
    ];
    for (left, right) in pairs.iter() {
        let prior = Capabilities::from_native(&record(left.0, left.1));
        let new = Capabilities::from_native(&record(right.0, right.1));
        let joined = record(left.0 | right.0, left.1 | right.1);
        assert_eq!(Capabilities::from_native(&joined), prior.merge(&new));
    }
}
