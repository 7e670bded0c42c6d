//! The version word of the interface.

use vstd::prelude::*;

verus! {

/// Mask of the major version bits of a version word.
pub const JVMTI_VERSION_MASK_MAJOR: u32 = 0x0FFF_0000;

/// Mask of the minor version bits of a version word.
pub const JVMTI_VERSION_MASK_MINOR: u32 = 0x0000_FF00;

/// Mask of the micro version bits of a version word.
pub const JVMTI_VERSION_MASK_MICRO: u32 = 0x0000_00FF;

/// Position of the lowest major version bit.
pub const JVMTI_VERSION_SHIFT_MAJOR: u32 = 16;

/// Position of the lowest minor version bit.
pub const JVMTI_VERSION_SHIFT_MINOR: u32 = 8;

/// Position of the lowest micro version bit.
pub const JVMTI_VERSION_SHIFT_MICRO: u32 = 0;

/// A version of the interface: major, minor and micro number.
#[derive(Clone, Copy, Debug, PartialEq, Eq, Structural)]
pub struct VersionNumber {
    pub major_version: u16,
    pub minor_version: u8,
    pub micro_version: u8,
}

impl VersionNumber {
    /// The triple that a version word stands for: bits 16 to 27 are the major
    /// number, bits 8 to 15 the minor number, bits 0 to 7 the micro number.
    /// The four highest bits carry no version.
    pub open spec fn spec_from_u32(encoded: u32) -> VersionNumber {
        VersionNumber {
            major_version: ((encoded as int / 0x1_0000) % 0x1000) as u16,
            minor_version: ((encoded as int / 0x100) % 0x100) as u8,
            micro_version: (encoded as int % 0x100) as u8,
        }
    }

    /// The triple that a version word stands for, where the word arrives as
    /// a signed number: the same 32 bits, read without sign.
    pub open spec fn spec_from_native(word: i32) -> VersionNumber {
        Self::spec_from_u32(
            if word >= 0 {
                word as u32
            } else {
                (word + 0x1_0000_0000) as u32
            },
        )
    }

    /// Decodes a version word as the interface hands it out.
    pub fn from_native(word: i32) -> (version: VersionNumber)
        ensures
            version == Self::spec_from_native(word),
    {
        let unsigned = #[verifier::truncate] (word as u32);
        assert(unsigned == (if word >= 0 {
            word as u32
        } else {
            (word + 0x1_0000_0000) as u32
        })) by (bit_vector)
            requires
                unsigned == word as u32,
        ;
        Self::from_u32(&unsigned)
    }

    /// Decodes a version word. Every word decodes; none is rejected.
    pub fn from_u32(encoded: &u32) -> (version: VersionNumber)
        ensures
            version == Self::spec_from_u32(*encoded),
    {
        let word: u32 = *encoded;
        let major: u32 = (word & JVMTI_VERSION_MASK_MAJOR) >> JVMTI_VERSION_SHIFT_MAJOR;
        let minor: u32 = (word & JVMTI_VERSION_MASK_MINOR) >> JVMTI_VERSION_SHIFT_MINOR;
        let micro: u32 = (word & JVMTI_VERSION_MASK_MICRO) >> JVMTI_VERSION_SHIFT_MICRO;
        assert(major == (word / 0x1_0000) % 0x1000) by (bit_vector)
            requires
                major == (word & JVMTI_VERSION_MASK_MAJOR) >> JVMTI_VERSION_SHIFT_MAJOR,
        ;
        assert(minor == (word / 0x100) % 0x100) by (bit_vector)
            requires
                minor == (word & JVMTI_VERSION_MASK_MINOR) >> JVMTI_VERSION_SHIFT_MINOR,
        ;
        assert(micro == word % 0x100) by (bit_vector)
            requires
                micro == (word & JVMTI_VERSION_MASK_MICRO) >> JVMTI_VERSION_SHIFT_MICRO,
        ;
        VersionNumber {
            major_version: major as u16,
            minor_version: minor as u8,
            micro_version: micro as u8,
        }
    }
}

} // verus!
