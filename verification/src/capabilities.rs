//! The capabilities of an environment, as named flags and as the bitfield
//! record of the interface.

use vstd::prelude::*;
use crate::native::NativeCapabilities;

verus! {

/// What one flag adds to its word: its weight if it is set, nothing if not.
pub open spec fn weighted(flag: bool, weight: u32) -> int {
    if flag {
        weight as int
    } else {
        0
    }
}

/// Whether a word holds the bit of the given weight, a power of two.
#[verifier::opaque]
pub open spec fn has_bit(word: u32, weight: u32) -> bool {
    (word / weight) % 2 == 1
}

/// Whether `weight` is the weight of one of the 32 bits of a word.
pub open spec fn is_bit_weight(weight: u32) -> bool {
    ||| weight == 0x0000_0001 || weight == 0x0000_0002
    ||| weight == 0x0000_0004 || weight == 0x0000_0008
    ||| weight == 0x0000_0010 || weight == 0x0000_0020
    ||| weight == 0x0000_0040 || weight == 0x0000_0080
    ||| weight == 0x0000_0100 || weight == 0x0000_0200
    ||| weight == 0x0000_0400 || weight == 0x0000_0800
    ||| weight == 0x0000_1000 || weight == 0x0000_2000
    ||| weight == 0x0000_4000 || weight == 0x0000_8000
    ||| weight == 0x0001_0000 || weight == 0x0002_0000
    ||| weight == 0x0004_0000 || weight == 0x0008_0000
    ||| weight == 0x0010_0000 || weight == 0x0020_0000
    ||| weight == 0x0040_0000 || weight == 0x0080_0000
    ||| weight == 0x0100_0000 || weight == 0x0200_0000
    ||| weight == 0x0400_0000 || weight == 0x0800_0000
    ||| weight == 0x1000_0000 || weight == 0x2000_0000
    ||| weight == 0x4000_0000 || weight == 0x8000_0000
}

/// The capabilities of an environment: one flag for each capability that
/// the interface defines.
#[derive(Clone, Copy, Debug, PartialEq, Eq, Structural)]
pub struct Capabilities {
    pub can_tag_objects: bool,
    pub can_generate_field_modification_events: bool,
    pub can_generate_field_access_events: bool,
    pub can_get_bytecodes: bool,
    pub can_get_synthetic_attribute: bool,
    pub can_get_owned_monitor_info: bool,
    pub can_get_current_contended_monitor: bool,
    pub can_get_monitor_info: bool,
    pub can_pop_frame: bool,
    pub can_redefine_classes: bool,
    pub can_signal_thread: bool,
    pub can_get_source_file_name: bool,
    pub can_get_line_numbers: bool,
    pub can_get_source_debug_extension: bool,
    pub can_access_local_variables: bool,
    pub can_maintain_original_method_order: bool,
    pub can_generate_single_step_events: bool,
    pub can_generate_exception_events: bool,
    pub can_generate_frame_pop_events: bool,
    pub can_generate_breakpoint_events: bool,
    pub can_suspend: bool,
    pub can_redefine_any_class: bool,
    pub can_get_current_thread_cpu_time: bool,
    pub can_get_thread_cpu_time: bool,
    pub can_generate_method_entry_events: bool,
    pub can_generate_method_exit_events: bool,
    pub can_generate_all_class_hook_events: bool,
    pub can_generate_compiled_method_load_events: bool,
    pub can_generate_monitor_events: bool,
    pub can_generate_vm_object_alloc_events: bool,
    pub can_generate_native_method_bind_events: bool,
    pub can_generate_garbage_collection_events: bool,
    pub can_generate_object_free_events: bool,
    pub can_force_early_return: bool,
    pub can_get_owned_monitor_stack_depth_info: bool,
    pub can_get_constant_pool: bool,
    pub can_set_native_method_prefix: bool,
    pub can_retransform_classes: bool,
    pub can_retransform_any_class: bool,
    pub can_generate_resource_exhaustion_heap_events: bool,
    pub can_generate_resource_exhaustion_threads_events: bool,
}

impl Capabilities {
    /// The first word of the record: the sum of the weights of the first 32
    /// flags that are set, the first flag at the lowest bit.
    #[verifier::opaque]
    pub open spec fn spec_word_1(self) -> u32 {
        (weighted(self.can_tag_objects, 0x0000_0001)
            + weighted(self.can_generate_field_modification_events, 0x0000_0002)
            + weighted(self.can_generate_field_access_events, 0x0000_0004)
            + weighted(self.can_get_bytecodes, 0x0000_0008)
            + weighted(self.can_get_synthetic_attribute, 0x0000_0010)
            + weighted(self.can_get_owned_monitor_info, 0x0000_0020)
            + weighted(self.can_get_current_contended_monitor, 0x0000_0040)
            + weighted(self.can_get_monitor_info, 0x0000_0080)
            + weighted(self.can_pop_frame, 0x0000_0100)
            + weighted(self.can_redefine_classes, 0x0000_0200)
            + weighted(self.can_signal_thread, 0x0000_0400)
            + weighted(self.can_get_source_file_name, 0x0000_0800)
            + weighted(self.can_get_line_numbers, 0x0000_1000)
            + weighted(self.can_get_source_debug_extension, 0x0000_2000)
            + weighted(self.can_access_local_variables, 0x0000_4000)
            + weighted(self.can_maintain_original_method_order, 0x0000_8000)
            + weighted(self.can_generate_single_step_events, 0x0001_0000)
            + weighted(self.can_generate_exception_events, 0x0002_0000)
            + weighted(self.can_generate_frame_pop_events, 0x0004_0000)
            + weighted(self.can_generate_breakpoint_events, 0x0008_0000)
            + weighted(self.can_suspend, 0x0010_0000)
            + weighted(self.can_redefine_any_class, 0x0020_0000)
            + weighted(self.can_get_current_thread_cpu_time, 0x0040_0000)
            + weighted(self.can_get_thread_cpu_time, 0x0080_0000)
            + weighted(self.can_generate_method_entry_events, 0x0100_0000)
            + weighted(self.can_generate_method_exit_events, 0x0200_0000)
            + weighted(self.can_generate_all_class_hook_events, 0x0400_0000)
            + weighted(self.can_generate_compiled_method_load_events, 0x0800_0000)
            + weighted(self.can_generate_monitor_events, 0x1000_0000)
            + weighted(self.can_generate_vm_object_alloc_events, 0x2000_0000)
            + weighted(self.can_generate_native_method_bind_events, 0x4000_0000)
            + weighted(self.can_generate_garbage_collection_events, 0x8000_0000)) as u32
    }

    /// The second word of the record: the sum of the weights of the other
    /// flags that are set.
    #[verifier::opaque]
    pub open spec fn spec_word_2(self) -> u32 {
        (weighted(self.can_generate_object_free_events, 0x0000_0001)
            + weighted(self.can_force_early_return, 0x0000_0002)
            + weighted(self.can_get_owned_monitor_stack_depth_info, 0x0000_0004)
            + weighted(self.can_get_constant_pool, 0x0000_0008)
            + weighted(self.can_set_native_method_prefix, 0x0000_0010)
            + weighted(self.can_retransform_classes, 0x0000_0020)
            + weighted(self.can_retransform_any_class, 0x0000_0040)
            + weighted(self.can_generate_resource_exhaustion_heap_events, 0x0000_0080)
            + weighted(self.can_generate_resource_exhaustion_threads_events, 0x0000_0100)) as u32
    }

    /// The record of these capabilities: each flag at its bit and every
    /// reserved bit zero.
    pub open spec fn spec_to_native(self) -> NativeCapabilities {
        NativeCapabilities {
            word_1: self.spec_word_1(),
            word_2: self.spec_word_2(),
            word_3: 0,
            word_4: 0,
        }
    }

    /// The capabilities that a record holds: each flag is the bit at its
    /// position. The reserved bits are not read.
    pub open spec fn spec_from_native(native: NativeCapabilities) -> Capabilities {
        Capabilities {
            can_tag_objects: has_bit(native.word_1, 0x0000_0001),
            can_generate_field_modification_events: has_bit(native.word_1, 0x0000_0002),
            can_generate_field_access_events: has_bit(native.word_1, 0x0000_0004),
            can_get_bytecodes: has_bit(native.word_1, 0x0000_0008),
            can_get_synthetic_attribute: has_bit(native.word_1, 0x0000_0010),
            can_get_owned_monitor_info: has_bit(native.word_1, 0x0000_0020),
            can_get_current_contended_monitor: has_bit(native.word_1, 0x0000_0040),
            can_get_monitor_info: has_bit(native.word_1, 0x0000_0080),
            can_pop_frame: has_bit(native.word_1, 0x0000_0100),
            can_redefine_classes: has_bit(native.word_1, 0x0000_0200),
            can_signal_thread: has_bit(native.word_1, 0x0000_0400),
            can_get_source_file_name: has_bit(native.word_1, 0x0000_0800),
            can_get_line_numbers: has_bit(native.word_1, 0x0000_1000),
            can_get_source_debug_extension: has_bit(native.word_1, 0x0000_2000),
            can_access_local_variables: has_bit(native.word_1, 0x0000_4000),
            can_maintain_original_method_order: has_bit(native.word_1, 0x0000_8000),
            can_generate_single_step_events: has_bit(native.word_1, 0x0001_0000),
            can_generate_exception_events: has_bit(native.word_1, 0x0002_0000),
            can_generate_frame_pop_events: has_bit(native.word_1, 0x0004_0000),
            can_generate_breakpoint_events: has_bit(native.word_1, 0x0008_0000),
            can_suspend: has_bit(native.word_1, 0x0010_0000),
            can_redefine_any_class: has_bit(native.word_1, 0x0020_0000),
            can_get_current_thread_cpu_time: has_bit(native.word_1, 0x0040_0000),
            can_get_thread_cpu_time: has_bit(native.word_1, 0x0080_0000),
            can_generate_method_entry_events: has_bit(native.word_1, 0x0100_0000),
            can_generate_method_exit_events: has_bit(native.word_1, 0x0200_0000),
            can_generate_all_class_hook_events: has_bit(native.word_1, 0x0400_0000),
            can_generate_compiled_method_load_events: has_bit(native.word_1, 0x0800_0000),
            can_generate_monitor_events: has_bit(native.word_1, 0x1000_0000),
            can_generate_vm_object_alloc_events: has_bit(native.word_1, 0x2000_0000),
            can_generate_native_method_bind_events: has_bit(native.word_1, 0x4000_0000),
            can_generate_garbage_collection_events: has_bit(native.word_1, 0x8000_0000),
            can_generate_object_free_events: has_bit(native.word_2, 0x0000_0001),
            can_force_early_return: has_bit(native.word_2, 0x0000_0002),
            can_get_owned_monitor_stack_depth_info: has_bit(native.word_2, 0x0000_0004),
            can_get_constant_pool: has_bit(native.word_2, 0x0000_0008),
            can_set_native_method_prefix: has_bit(native.word_2, 0x0000_0010),
            can_retransform_classes: has_bit(native.word_2, 0x0000_0020),
            can_retransform_any_class: has_bit(native.word_2, 0x0000_0040),
            can_generate_resource_exhaustion_heap_events: has_bit(native.word_2, 0x0000_0080),
            can_generate_resource_exhaustion_threads_events: has_bit(native.word_2, 0x0000_0100),
        }
    }

    /// The capabilities that either of the two holds.
    pub open spec fn spec_merge(self, other: Capabilities) -> Capabilities {
        Capabilities {
            can_tag_objects: self.can_tag_objects || other.can_tag_objects,
            can_generate_field_modification_events:
                self.can_generate_field_modification_events
                    || other.can_generate_field_modification_events,
            can_generate_field_access_events:
                self.can_generate_field_access_events
                    || other.can_generate_field_access_events,
            can_get_bytecodes: self.can_get_bytecodes || other.can_get_bytecodes,
            can_get_synthetic_attribute:
                self.can_get_synthetic_attribute
                    || other.can_get_synthetic_attribute,
            can_get_owned_monitor_info:
                self.can_get_owned_monitor_info
                    || other.can_get_owned_monitor_info,
            can_get_current_contended_monitor:
                self.can_get_current_contended_monitor
                    || other.can_get_current_contended_monitor,
            can_get_monitor_info: self.can_get_monitor_info || other.can_get_monitor_info,
            can_pop_frame: self.can_pop_frame || other.can_pop_frame,
            can_redefine_classes: self.can_redefine_classes || other.can_redefine_classes,
            can_signal_thread: self.can_signal_thread || other.can_signal_thread,
            can_get_source_file_name:
                self.can_get_source_file_name
                    || other.can_get_source_file_name,
            can_get_line_numbers: self.can_get_line_numbers || other.can_get_line_numbers,
            can_get_source_debug_extension:
                self.can_get_source_debug_extension
                    || other.can_get_source_debug_extension,
            can_access_local_variables:
                self.can_access_local_variables
                    || other.can_access_local_variables,
            can_maintain_original_method_order:
                self.can_maintain_original_method_order
                    || other.can_maintain_original_method_order,
            can_generate_single_step_events:
                self.can_generate_single_step_events
                    || other.can_generate_single_step_events,
            can_generate_exception_events:
                self.can_generate_exception_events
                    || other.can_generate_exception_events,
            can_generate_frame_pop_events:
                self.can_generate_frame_pop_events
                    || other.can_generate_frame_pop_events,
            can_generate_breakpoint_events:
                self.can_generate_breakpoint_events
                    || other.can_generate_breakpoint_events,
            can_suspend: self.can_suspend || other.can_suspend,
            can_redefine_any_class: self.can_redefine_any_class || other.can_redefine_any_class,
            can_get_current_thread_cpu_time:
                self.can_get_current_thread_cpu_time
                    || other.can_get_current_thread_cpu_time,
            can_get_thread_cpu_time: self.can_get_thread_cpu_time || other.can_get_thread_cpu_time,
            can_generate_method_entry_events:
                self.can_generate_method_entry_events
                    || other.can_generate_method_entry_events,
            can_generate_method_exit_events:
                self.can_generate_method_exit_events
                    || other.can_generate_method_exit_events,
            can_generate_all_class_hook_events:
                self.can_generate_all_class_hook_events
                    || other.can_generate_all_class_hook_events,
            can_generate_compiled_method_load_events:
                self.can_generate_compiled_method_load_events
                    || other.can_generate_compiled_method_load_events,
            can_generate_monitor_events:
                self.can_generate_monitor_events
                    || other.can_generate_monitor_events,
            can_generate_vm_object_alloc_events:
                self.can_generate_vm_object_alloc_events
                    || other.can_generate_vm_object_alloc_events,
            can_generate_native_method_bind_events:
                self.can_generate_native_method_bind_events
                    || other.can_generate_native_method_bind_events,
            can_generate_garbage_collection_events:
                self.can_generate_garbage_collection_events
                    || other.can_generate_garbage_collection_events,
            can_generate_object_free_events:
                self.can_generate_object_free_events
                    || other.can_generate_object_free_events,
            can_force_early_return: self.can_force_early_return || other.can_force_early_return,
            can_get_owned_monitor_stack_depth_info:
                self.can_get_owned_monitor_stack_depth_info
                    || other.can_get_owned_monitor_stack_depth_info,
            can_get_constant_pool: self.can_get_constant_pool || other.can_get_constant_pool,
            can_set_native_method_prefix:
                self.can_set_native_method_prefix
                    || other.can_set_native_method_prefix,
            can_retransform_classes: self.can_retransform_classes || other.can_retransform_classes,
            can_retransform_any_class:
                self.can_retransform_any_class
                    || other.can_retransform_any_class,
            can_generate_resource_exhaustion_heap_events:
                self.can_generate_resource_exhaustion_heap_events
                    || other.can_generate_resource_exhaustion_heap_events,
            can_generate_resource_exhaustion_threads_events:
                self.can_generate_resource_exhaustion_threads_events
                    || other.can_generate_resource_exhaustion_threads_events,
        }
    }

    /// Whether every capability of `other` is among these.
    pub open spec fn includes(self, other: Capabilities) -> bool {
        &&& other.can_tag_objects ==> self.can_tag_objects
        &&& other.can_generate_field_modification_events
            ==> self.can_generate_field_modification_events
        &&& other.can_generate_field_access_events ==> self.can_generate_field_access_events
        &&& other.can_get_bytecodes ==> self.can_get_bytecodes
        &&& other.can_get_synthetic_attribute ==> self.can_get_synthetic_attribute
        &&& other.can_get_owned_monitor_info ==> self.can_get_owned_monitor_info
        &&& other.can_get_current_contended_monitor ==> self.can_get_current_contended_monitor
        &&& other.can_get_monitor_info ==> self.can_get_monitor_info
        &&& other.can_pop_frame ==> self.can_pop_frame
        &&& other.can_redefine_classes ==> self.can_redefine_classes
        &&& other.can_signal_thread ==> self.can_signal_thread
        &&& other.can_get_source_file_name ==> self.can_get_source_file_name
        &&& other.can_get_line_numbers ==> self.can_get_line_numbers
        &&& other.can_get_source_debug_extension ==> self.can_get_source_debug_extension
        &&& other.can_access_local_variables ==> self.can_access_local_variables
        &&& other.can_maintain_original_method_order ==> self.can_maintain_original_method_order
        &&& other.can_generate_single_step_events ==> self.can_generate_single_step_events
        &&& other.can_generate_exception_events ==> self.can_generate_exception_events
        &&& other.can_generate_frame_pop_events ==> self.can_generate_frame_pop_events
        &&& other.can_generate_breakpoint_events ==> self.can_generate_breakpoint_events
        &&& other.can_suspend ==> self.can_suspend
        &&& other.can_redefine_any_class ==> self.can_redefine_any_class
        &&& other.can_get_current_thread_cpu_time ==> self.can_get_current_thread_cpu_time
        &&& other.can_get_thread_cpu_time ==> self.can_get_thread_cpu_time
        &&& other.can_generate_method_entry_events ==> self.can_generate_method_entry_events
        &&& other.can_generate_method_exit_events ==> self.can_generate_method_exit_events
        &&& other.can_generate_all_class_hook_events ==> self.can_generate_all_class_hook_events
        &&& other.can_generate_compiled_method_load_events
            ==> self.can_generate_compiled_method_load_events
        &&& other.can_generate_monitor_events ==> self.can_generate_monitor_events
        &&& other.can_generate_vm_object_alloc_events ==> self.can_generate_vm_object_alloc_events
        &&& other.can_generate_native_method_bind_events
            ==> self.can_generate_native_method_bind_events
        &&& other.can_generate_garbage_collection_events
            ==> self.can_generate_garbage_collection_events
        &&& other.can_generate_object_free_events ==> self.can_generate_object_free_events
        &&& other.can_force_early_return ==> self.can_force_early_return
        &&& other.can_get_owned_monitor_stack_depth_info
            ==> self.can_get_owned_monitor_stack_depth_info
        &&& other.can_get_constant_pool ==> self.can_get_constant_pool
        &&& other.can_set_native_method_prefix ==> self.can_set_native_method_prefix
        &&& other.can_retransform_classes ==> self.can_retransform_classes
        &&& other.can_retransform_any_class ==> self.can_retransform_any_class
        &&& other.can_generate_resource_exhaustion_heap_events
            ==> self.can_generate_resource_exhaustion_heap_events
        &&& other.can_generate_resource_exhaustion_threads_events
            ==> self.can_generate_resource_exhaustion_threads_events
    }

    /// No capability at all.
    pub open spec fn spec_new() -> Capabilities {
        Capabilities {
            can_tag_objects: false,
            can_generate_field_modification_events: false,
            can_generate_field_access_events: false,
            can_get_bytecodes: false,
            can_get_synthetic_attribute: false,
            can_get_owned_monitor_info: false,
            can_get_current_contended_monitor: false,
            can_get_monitor_info: false,
            can_pop_frame: false,
            can_redefine_classes: false,
            can_signal_thread: false,
            can_get_source_file_name: false,
            can_get_line_numbers: false,
            can_get_source_debug_extension: false,
            can_access_local_variables: false,
            can_maintain_original_method_order: false,
            can_generate_single_step_events: false,
            can_generate_exception_events: false,
            can_generate_frame_pop_events: false,
            can_generate_breakpoint_events: false,
            can_suspend: false,
            can_redefine_any_class: false,
            can_get_current_thread_cpu_time: false,
            can_get_thread_cpu_time: false,
            can_generate_method_entry_events: false,
            can_generate_method_exit_events: false,
            can_generate_all_class_hook_events: false,
            can_generate_compiled_method_load_events: false,
            can_generate_monitor_events: false,
            can_generate_vm_object_alloc_events: false,
            can_generate_native_method_bind_events: false,
            can_generate_garbage_collection_events: false,
            can_generate_object_free_events: false,
            can_force_early_return: false,
            can_get_owned_monitor_stack_depth_info: false,
            can_get_constant_pool: false,
            can_set_native_method_prefix: false,
            can_retransform_classes: false,
            can_retransform_any_class: false,
            can_generate_resource_exhaustion_heap_events: false,
            can_generate_resource_exhaustion_threads_events: false,
        }
    }

    /// The empty set of capabilities.
    pub fn new() -> (capabilities: Capabilities)
        ensures
            capabilities == Self::spec_new(),
    {
        Capabilities {
            can_tag_objects: false,
            can_generate_field_modification_events: false,
            can_generate_field_access_events: false,
            can_get_bytecodes: false,
            can_get_synthetic_attribute: false,
            can_get_owned_monitor_info: false,
            can_get_current_contended_monitor: false,
            can_get_monitor_info: false,
            can_pop_frame: false,
            can_redefine_classes: false,
            can_signal_thread: false,
            can_get_source_file_name: false,
            can_get_line_numbers: false,
            can_get_source_debug_extension: false,
            can_access_local_variables: false,
            can_maintain_original_method_order: false,
            can_generate_single_step_events: false,
            can_generate_exception_events: false,
            can_generate_frame_pop_events: false,
            can_generate_breakpoint_events: false,
            can_suspend: false,
            can_redefine_any_class: false,
            can_get_current_thread_cpu_time: false,
            can_get_thread_cpu_time: false,
            can_generate_method_entry_events: false,
            can_generate_method_exit_events: false,
            can_generate_all_class_hook_events: false,
            can_generate_compiled_method_load_events: false,
            can_generate_monitor_events: false,
            can_generate_vm_object_alloc_events: false,
            can_generate_native_method_bind_events: false,
            can_generate_garbage_collection_events: false,
            can_generate_object_free_events: false,
            can_force_early_return: false,
            can_get_owned_monitor_stack_depth_info: false,
            can_get_constant_pool: false,
            can_set_native_method_prefix: false,
            can_retransform_classes: false,
            can_retransform_any_class: false,
            can_generate_resource_exhaustion_heap_events: false,
            can_generate_resource_exhaustion_threads_events: false,
        }
    }

    /// Packs the flags into the record of the interface.
    pub fn to_native(&self) -> (native: NativeCapabilities)
        ensures
            native == self.spec_to_native(),
            native.reserved_bits_are_zero(),
            Self::spec_from_native(native) == *self,
    {
        let word_1: u32 = bit_if(self.can_tag_objects, 0x0000_0001)
            | bit_if(self.can_generate_field_modification_events, 0x0000_0002)
            | bit_if(self.can_generate_field_access_events, 0x0000_0004)
            | bit_if(self.can_get_bytecodes, 0x0000_0008)
            | bit_if(self.can_get_synthetic_attribute, 0x0000_0010)
            | bit_if(self.can_get_owned_monitor_info, 0x0000_0020)
            | bit_if(self.can_get_current_contended_monitor, 0x0000_0040)
            | bit_if(self.can_get_monitor_info, 0x0000_0080)
            | bit_if(self.can_pop_frame, 0x0000_0100)
            | bit_if(self.can_redefine_classes, 0x0000_0200)
            | bit_if(self.can_signal_thread, 0x0000_0400)
            | bit_if(self.can_get_source_file_name, 0x0000_0800)
            | bit_if(self.can_get_line_numbers, 0x0000_1000)
            | bit_if(self.can_get_source_debug_extension, 0x0000_2000)
            | bit_if(self.can_access_local_variables, 0x0000_4000)
            | bit_if(self.can_maintain_original_method_order, 0x0000_8000)
            | bit_if(self.can_generate_single_step_events, 0x0001_0000)
            | bit_if(self.can_generate_exception_events, 0x0002_0000)
            | bit_if(self.can_generate_frame_pop_events, 0x0004_0000)
            | bit_if(self.can_generate_breakpoint_events, 0x0008_0000)
            | bit_if(self.can_suspend, 0x0010_0000)
            | bit_if(self.can_redefine_any_class, 0x0020_0000)
            | bit_if(self.can_get_current_thread_cpu_time, 0x0040_0000)
            | bit_if(self.can_get_thread_cpu_time, 0x0080_0000)
            | bit_if(self.can_generate_method_entry_events, 0x0100_0000)
            | bit_if(self.can_generate_method_exit_events, 0x0200_0000)
            | bit_if(self.can_generate_all_class_hook_events, 0x0400_0000)
            | bit_if(self.can_generate_compiled_method_load_events, 0x0800_0000)
            | bit_if(self.can_generate_monitor_events, 0x1000_0000)
            | bit_if(self.can_generate_vm_object_alloc_events, 0x2000_0000)
            | bit_if(self.can_generate_native_method_bind_events, 0x4000_0000)
            | bit_if(self.can_generate_garbage_collection_events, 0x8000_0000);
        let word_2: u32 = bit_if(self.can_generate_object_free_events, 0x0000_0001)
            | bit_if(self.can_force_early_return, 0x0000_0002)
            | bit_if(self.can_get_owned_monitor_stack_depth_info, 0x0000_0004)
            | bit_if(self.can_get_constant_pool, 0x0000_0008)
            | bit_if(self.can_set_native_method_prefix, 0x0000_0010)
            | bit_if(self.can_retransform_classes, 0x0000_0020)
            | bit_if(self.can_retransform_any_class, 0x0000_0040)
            | bit_if(self.can_generate_resource_exhaustion_heap_events, 0x0000_0080)
            | bit_if(self.can_generate_resource_exhaustion_threads_events, 0x0000_0100);
        proof {
            lemma_words_are_sums(*self, word_1, word_2);
            lemma_round_trip(*self);
            lemma_reserved_bits_are_zero(*self);
        }
        NativeCapabilities { word_1, word_2, word_3: 0, word_4: 0 }
    }

    /// Reads the flags out of a record of the interface.
    pub fn from_native(native: &NativeCapabilities) -> (capabilities: Capabilities)
        ensures
            capabilities == Self::spec_from_native(*native),
    {
        Capabilities {
            can_tag_objects: test_bit(native.word_1, 0x0000_0001),
            can_generate_field_modification_events: test_bit(native.word_1, 0x0000_0002),
            can_generate_field_access_events: test_bit(native.word_1, 0x0000_0004),
            can_get_bytecodes: test_bit(native.word_1, 0x0000_0008),
            can_get_synthetic_attribute: test_bit(native.word_1, 0x0000_0010),
            can_get_owned_monitor_info: test_bit(native.word_1, 0x0000_0020),
            can_get_current_contended_monitor: test_bit(native.word_1, 0x0000_0040),
            can_get_monitor_info: test_bit(native.word_1, 0x0000_0080),
            can_pop_frame: test_bit(native.word_1, 0x0000_0100),
            can_redefine_classes: test_bit(native.word_1, 0x0000_0200),
            can_signal_thread: test_bit(native.word_1, 0x0000_0400),
            can_get_source_file_name: test_bit(native.word_1, 0x0000_0800),
            can_get_line_numbers: test_bit(native.word_1, 0x0000_1000),
            can_get_source_debug_extension: test_bit(native.word_1, 0x0000_2000),
            can_access_local_variables: test_bit(native.word_1, 0x0000_4000),
            can_maintain_original_method_order: test_bit(native.word_1, 0x0000_8000),
            can_generate_single_step_events: test_bit(native.word_1, 0x0001_0000),
            can_generate_exception_events: test_bit(native.word_1, 0x0002_0000),
            can_generate_frame_pop_events: test_bit(native.word_1, 0x0004_0000),
            can_generate_breakpoint_events: test_bit(native.word_1, 0x0008_0000),
            can_suspend: test_bit(native.word_1, 0x0010_0000),
            can_redefine_any_class: test_bit(native.word_1, 0x0020_0000),
            can_get_current_thread_cpu_time: test_bit(native.word_1, 0x0040_0000),
            can_get_thread_cpu_time: test_bit(native.word_1, 0x0080_0000),
            can_generate_method_entry_events: test_bit(native.word_1, 0x0100_0000),
            can_generate_method_exit_events: test_bit(native.word_1, 0x0200_0000),
            can_generate_all_class_hook_events: test_bit(native.word_1, 0x0400_0000),
            can_generate_compiled_method_load_events: test_bit(native.word_1, 0x0800_0000),
            can_generate_monitor_events: test_bit(native.word_1, 0x1000_0000),
            can_generate_vm_object_alloc_events: test_bit(native.word_1, 0x2000_0000),
            can_generate_native_method_bind_events: test_bit(native.word_1, 0x4000_0000),
            can_generate_garbage_collection_events: test_bit(native.word_1, 0x8000_0000),
            can_generate_object_free_events: test_bit(native.word_2, 0x0000_0001),
            can_force_early_return: test_bit(native.word_2, 0x0000_0002),
            can_get_owned_monitor_stack_depth_info: test_bit(native.word_2, 0x0000_0004),
            can_get_constant_pool: test_bit(native.word_2, 0x0000_0008),
            can_set_native_method_prefix: test_bit(native.word_2, 0x0000_0010),
            can_retransform_classes: test_bit(native.word_2, 0x0000_0020),
            can_retransform_any_class: test_bit(native.word_2, 0x0000_0040),
            can_generate_resource_exhaustion_heap_events: test_bit(native.word_2, 0x0000_0080),
            can_generate_resource_exhaustion_threads_events: test_bit(native.word_2, 0x0000_0100),
        }
    }

    /// The union of two sets of capabilities.
    pub fn merge(&self, other: &Capabilities) -> (merged: Capabilities)
        ensures
            merged == self.spec_merge(*other),
            merged.includes(*self),
            merged.includes(*other),
    {
        Capabilities {
            can_tag_objects: self.can_tag_objects || other.can_tag_objects,
            can_generate_field_modification_events:
                self.can_generate_field_modification_events
                    || other.can_generate_field_modification_events,
            can_generate_field_access_events:
                self.can_generate_field_access_events
                    || other.can_generate_field_access_events,
            can_get_bytecodes: self.can_get_bytecodes || other.can_get_bytecodes,
            can_get_synthetic_attribute:
                self.can_get_synthetic_attribute
                    || other.can_get_synthetic_attribute,
            can_get_owned_monitor_info:
                self.can_get_owned_monitor_info
                    || other.can_get_owned_monitor_info,
            can_get_current_contended_monitor:
                self.can_get_current_contended_monitor
                    || other.can_get_current_contended_monitor,
            can_get_monitor_info: self.can_get_monitor_info || other.can_get_monitor_info,
            can_pop_frame: self.can_pop_frame || other.can_pop_frame,
            can_redefine_classes: self.can_redefine_classes || other.can_redefine_classes,
            can_signal_thread: self.can_signal_thread || other.can_signal_thread,
            can_get_source_file_name:
                self.can_get_source_file_name
                    || other.can_get_source_file_name,
            can_get_line_numbers: self.can_get_line_numbers || other.can_get_line_numbers,
            can_get_source_debug_extension:
                self.can_get_source_debug_extension
                    || other.can_get_source_debug_extension,
            can_access_local_variables:
                self.can_access_local_variables
                    || other.can_access_local_variables,
            can_maintain_original_method_order:
                self.can_maintain_original_method_order
                    || other.can_maintain_original_method_order,
            can_generate_single_step_events:
                self.can_generate_single_step_events
                    || other.can_generate_single_step_events,
            can_generate_exception_events:
                self.can_generate_exception_events
                    || other.can_generate_exception_events,
            can_generate_frame_pop_events:
                self.can_generate_frame_pop_events
                    || other.can_generate_frame_pop_events,
            can_generate_breakpoint_events:
                self.can_generate_breakpoint_events
                    || other.can_generate_breakpoint_events,
            can_suspend: self.can_suspend || other.can_suspend,
            can_redefine_any_class: self.can_redefine_any_class || other.can_redefine_any_class,
            can_get_current_thread_cpu_time:
                self.can_get_current_thread_cpu_time
                    || other.can_get_current_thread_cpu_time,
            can_get_thread_cpu_time: self.can_get_thread_cpu_time || other.can_get_thread_cpu_time,
            can_generate_method_entry_events:
                self.can_generate_method_entry_events
                    || other.can_generate_method_entry_events,
            can_generate_method_exit_events:
                self.can_generate_method_exit_events
                    || other.can_generate_method_exit_events,
            can_generate_all_class_hook_events:
                self.can_generate_all_class_hook_events
                    || other.can_generate_all_class_hook_events,
            can_generate_compiled_method_load_events:
                self.can_generate_compiled_method_load_events
                    || other.can_generate_compiled_method_load_events,
            can_generate_monitor_events:
                self.can_generate_monitor_events
                    || other.can_generate_monitor_events,
            can_generate_vm_object_alloc_events:
                self.can_generate_vm_object_alloc_events
                    || other.can_generate_vm_object_alloc_events,
            can_generate_native_method_bind_events:
                self.can_generate_native_method_bind_events
                    || other.can_generate_native_method_bind_events,
            can_generate_garbage_collection_events:
                self.can_generate_garbage_collection_events
                    || other.can_generate_garbage_collection_events,
            can_generate_object_free_events:
                self.can_generate_object_free_events
                    || other.can_generate_object_free_events,
            can_force_early_return: self.can_force_early_return || other.can_force_early_return,
            can_get_owned_monitor_stack_depth_info:
                self.can_get_owned_monitor_stack_depth_info
                    || other.can_get_owned_monitor_stack_depth_info,
            can_get_constant_pool: self.can_get_constant_pool || other.can_get_constant_pool,
            can_set_native_method_prefix:
                self.can_set_native_method_prefix
                    || other.can_set_native_method_prefix,
            can_retransform_classes: self.can_retransform_classes || other.can_retransform_classes,
            can_retransform_any_class:
                self.can_retransform_any_class
                    || other.can_retransform_any_class,
            can_generate_resource_exhaustion_heap_events:
                self.can_generate_resource_exhaustion_heap_events
                    || other.can_generate_resource_exhaustion_heap_events,
            can_generate_resource_exhaustion_threads_events:
                self.can_generate_resource_exhaustion_threads_events
                    || other.can_generate_resource_exhaustion_threads_events,
        }
    }
}

/// The weight if the flag is set, zero if not.
pub open spec fn spec_bit_if(flag: bool, weight: u32) -> u32 {
    if flag {
        weight
    } else {
        0
    }
}

/// The weight if the flag is set, zero if not.
fn bit_if(flag: bool, weight: u32) -> (bit: u32)
    ensures
        bit == spec_bit_if(flag, weight),
{
    if flag {
        weight
    } else {
        0
    }
}

/// Whether the word holds the bit of the given weight.
fn test_bit(word: u32, weight: u32) -> (set: bool)
    requires
        is_bit_weight(weight),
    ensures
        set == has_bit(word, weight),
{
    proof {
        lemma_bit_is_mask(word, weight);
    }
    word & weight != 0
}

/// The words of a record hold the bit of a capability exactly if its flag
/// is set.
pub proof fn lemma_words_hold_their_flags(capabilities: Capabilities)
    ensures
        has_bit(capabilities.spec_word_1(), 0x0000_0001) == capabilities.can_tag_objects,
        has_bit(capabilities.spec_word_1(), 0x0000_0002)
            == capabilities.can_generate_field_modification_events,
        has_bit(capabilities.spec_word_1(), 0x0000_0004)
            == capabilities.can_generate_field_access_events,
        has_bit(capabilities.spec_word_1(), 0x0000_0008) == capabilities.can_get_bytecodes,
        has_bit(capabilities.spec_word_1(), 0x0000_0010)
            == capabilities.can_get_synthetic_attribute,
        has_bit(capabilities.spec_word_1(), 0x0000_0020) == capabilities.can_get_owned_monitor_info,
        has_bit(capabilities.spec_word_1(), 0x0000_0040)
            == capabilities.can_get_current_contended_monitor,
        has_bit(capabilities.spec_word_1(), 0x0000_0080) == capabilities.can_get_monitor_info,
        has_bit(capabilities.spec_word_1(), 0x0000_0100) == capabilities.can_pop_frame,
        has_bit(capabilities.spec_word_1(), 0x0000_0200) == capabilities.can_redefine_classes,
        has_bit(capabilities.spec_word_1(), 0x0000_0400) == capabilities.can_signal_thread,
        has_bit(capabilities.spec_word_1(), 0x0000_0800) == capabilities.can_get_source_file_name,
        has_bit(capabilities.spec_word_1(), 0x0000_1000) == capabilities.can_get_line_numbers,
        has_bit(capabilities.spec_word_1(), 0x0000_2000)
            == capabilities.can_get_source_debug_extension,
        has_bit(capabilities.spec_word_1(), 0x0000_4000) == capabilities.can_access_local_variables,
        has_bit(capabilities.spec_word_1(), 0x0000_8000)
            == capabilities.can_maintain_original_method_order,
        has_bit(capabilities.spec_word_1(), 0x0001_0000)
            == capabilities.can_generate_single_step_events,
        has_bit(capabilities.spec_word_1(), 0x0002_0000)
            == capabilities.can_generate_exception_events,
        has_bit(capabilities.spec_word_1(), 0x0004_0000)
            == capabilities.can_generate_frame_pop_events,
        has_bit(capabilities.spec_word_1(), 0x0008_0000)
            == capabilities.can_generate_breakpoint_events,
        has_bit(capabilities.spec_word_1(), 0x0010_0000) == capabilities.can_suspend,
        has_bit(capabilities.spec_word_1(), 0x0020_0000) == capabilities.can_redefine_any_class,
        has_bit(capabilities.spec_word_1(), 0x0040_0000)
            == capabilities.can_get_current_thread_cpu_time,
        has_bit(capabilities.spec_word_1(), 0x0080_0000) == capabilities.can_get_thread_cpu_time,
        has_bit(capabilities.spec_word_1(), 0x0100_0000)
            == capabilities.can_generate_method_entry_events,
        has_bit(capabilities.spec_word_1(), 0x0200_0000)
            == capabilities.can_generate_method_exit_events,
        has_bit(capabilities.spec_word_1(), 0x0400_0000)
            == capabilities.can_generate_all_class_hook_events,
        has_bit(capabilities.spec_word_1(), 0x0800_0000)
            == capabilities.can_generate_compiled_method_load_events,
        has_bit(capabilities.spec_word_1(), 0x1000_0000)
            == capabilities.can_generate_monitor_events,
        has_bit(capabilities.spec_word_1(), 0x2000_0000)
            == capabilities.can_generate_vm_object_alloc_events,
        has_bit(capabilities.spec_word_1(), 0x4000_0000)
            == capabilities.can_generate_native_method_bind_events,
        has_bit(capabilities.spec_word_1(), 0x8000_0000)
            == capabilities.can_generate_garbage_collection_events,
        has_bit(capabilities.spec_word_2(), 0x0000_0001)
            == capabilities.can_generate_object_free_events,
        has_bit(capabilities.spec_word_2(), 0x0000_0002) == capabilities.can_force_early_return,
        has_bit(capabilities.spec_word_2(), 0x0000_0004)
            == capabilities.can_get_owned_monitor_stack_depth_info,
        has_bit(capabilities.spec_word_2(), 0x0000_0008) == capabilities.can_get_constant_pool,
        has_bit(capabilities.spec_word_2(), 0x0000_0010)
            == capabilities.can_set_native_method_prefix,
        has_bit(capabilities.spec_word_2(), 0x0000_0020) == capabilities.can_retransform_classes,
        has_bit(capabilities.spec_word_2(), 0x0000_0040) == capabilities.can_retransform_any_class,
        has_bit(capabilities.spec_word_2(), 0x0000_0080)
            == capabilities.can_generate_resource_exhaustion_heap_events,
        has_bit(capabilities.spec_word_2(), 0x0000_0100)
            == capabilities.can_generate_resource_exhaustion_threads_events,
{
    reveal(Capabilities::spec_word_1);
    reveal(Capabilities::spec_word_2);
    let b0 = capabilities.can_tag_objects;
    let b1 = capabilities.can_generate_field_modification_events;
    let b2 = capabilities.can_generate_field_access_events;
    let b3 = capabilities.can_get_bytecodes;
    let b4 = capabilities.can_get_synthetic_attribute;
    let b5 = capabilities.can_get_owned_monitor_info;
    let b6 = capabilities.can_get_current_contended_monitor;
    let b7 = capabilities.can_get_monitor_info;
    let b8 = capabilities.can_pop_frame;
    let b9 = capabilities.can_redefine_classes;
    let b10 = capabilities.can_signal_thread;
    let b11 = capabilities.can_get_source_file_name;
    let b12 = capabilities.can_get_line_numbers;
    let b13 = capabilities.can_get_source_debug_extension;
    let b14 = capabilities.can_access_local_variables;
    let b15 = capabilities.can_maintain_original_method_order;
    let b16 = capabilities.can_generate_single_step_events;
    let b17 = capabilities.can_generate_exception_events;
    let b18 = capabilities.can_generate_frame_pop_events;
    let b19 = capabilities.can_generate_breakpoint_events;
    let b20 = capabilities.can_suspend;
    let b21 = capabilities.can_redefine_any_class;
    let b22 = capabilities.can_get_current_thread_cpu_time;
    let b23 = capabilities.can_get_thread_cpu_time;
    let b24 = capabilities.can_generate_method_entry_events;
    let b25 = capabilities.can_generate_method_exit_events;
    let b26 = capabilities.can_generate_all_class_hook_events;
    let b27 = capabilities.can_generate_compiled_method_load_events;
    let b28 = capabilities.can_generate_monitor_events;
    let b29 = capabilities.can_generate_vm_object_alloc_events;
    let b30 = capabilities.can_generate_native_method_bind_events;
    let b31 = capabilities.can_generate_garbage_collection_events;
    let b32 = capabilities.can_generate_object_free_events;
    let b33 = capabilities.can_force_early_return;
    let b34 = capabilities.can_get_owned_monitor_stack_depth_info;
    let b35 = capabilities.can_get_constant_pool;
    let b36 = capabilities.can_set_native_method_prefix;
    let b37 = capabilities.can_retransform_classes;
    let b38 = capabilities.can_retransform_any_class;
    let b39 = capabilities.can_generate_resource_exhaustion_heap_events;
    let b40 = capabilities.can_generate_resource_exhaustion_threads_events;
    let word_1 = capabilities.spec_word_1();
    let word_2 = capabilities.spec_word_2();
    assert({
        &&& has_bit(word_1, 0x0000_0001) == b0
        &&& has_bit(word_1, 0x0000_0002) == b1
        &&& has_bit(word_1, 0x0000_0004) == b2
        &&& has_bit(word_1, 0x0000_0008) == b3
        &&& has_bit(word_1, 0x0000_0010) == b4
        &&& has_bit(word_1, 0x0000_0020) == b5
        &&& has_bit(word_1, 0x0000_0040) == b6
        &&& has_bit(word_1, 0x0000_0080) == b7
        &&& has_bit(word_1, 0x0000_0100) == b8
        &&& has_bit(word_1, 0x0000_0200) == b9
        &&& has_bit(word_1, 0x0000_0400) == b10
        &&& has_bit(word_1, 0x0000_0800) == b11
        &&& has_bit(word_1, 0x0000_1000) == b12
        &&& has_bit(word_1, 0x0000_2000) == b13
        &&& has_bit(word_1, 0x0000_4000) == b14
        &&& has_bit(word_1, 0x0000_8000) == b15
        &&& has_bit(word_1, 0x0001_0000) == b16
        &&& has_bit(word_1, 0x0002_0000) == b17
        &&& has_bit(word_1, 0x0004_0000) == b18
        &&& has_bit(word_1, 0x0008_0000) == b19
        &&& has_bit(word_1, 0x0010_0000) == b20
        &&& has_bit(word_1, 0x0020_0000) == b21
        &&& has_bit(word_1, 0x0040_0000) == b22
        &&& has_bit(word_1, 0x0080_0000) == b23
        &&& has_bit(word_1, 0x0100_0000) == b24
        &&& has_bit(word_1, 0x0200_0000) == b25
        &&& has_bit(word_1, 0x0400_0000) == b26
        &&& has_bit(word_1, 0x0800_0000) == b27
        &&& has_bit(word_1, 0x1000_0000) == b28
        &&& has_bit(word_1, 0x2000_0000) == b29
        &&& has_bit(word_1, 0x4000_0000) == b30
        &&& has_bit(word_1, 0x8000_0000) == b31
    }) by (bit_vector)
        requires
            word_1 == (weighted(b0, 0x0000_0001)
                + weighted(b1, 0x0000_0002)
                + weighted(b2, 0x0000_0004)
                + weighted(b3, 0x0000_0008)
                + weighted(b4, 0x0000_0010)
                + weighted(b5, 0x0000_0020)
                + weighted(b6, 0x0000_0040)
                + weighted(b7, 0x0000_0080)
                + weighted(b8, 0x0000_0100)
                + weighted(b9, 0x0000_0200)
                + weighted(b10, 0x0000_0400)
                + weighted(b11, 0x0000_0800)
                + weighted(b12, 0x0000_1000)
                + weighted(b13, 0x0000_2000)
                + weighted(b14, 0x0000_4000)
                + weighted(b15, 0x0000_8000)
                + weighted(b16, 0x0001_0000)
                + weighted(b17, 0x0002_0000)
                + weighted(b18, 0x0004_0000)
                + weighted(b19, 0x0008_0000)
                + weighted(b20, 0x0010_0000)
                + weighted(b21, 0x0020_0000)
                + weighted(b22, 0x0040_0000)
                + weighted(b23, 0x0080_0000)
                + weighted(b24, 0x0100_0000)
                + weighted(b25, 0x0200_0000)
                + weighted(b26, 0x0400_0000)
                + weighted(b27, 0x0800_0000)
                + weighted(b28, 0x1000_0000)
                + weighted(b29, 0x2000_0000)
                + weighted(b30, 0x4000_0000)
                + weighted(b31, 0x8000_0000)) as u32,
    ;
    assert({
        &&& has_bit(word_2, 0x0000_0001) == b32
        &&& has_bit(word_2, 0x0000_0002) == b33
        &&& has_bit(word_2, 0x0000_0004) == b34
        &&& has_bit(word_2, 0x0000_0008) == b35
        &&& has_bit(word_2, 0x0000_0010) == b36
        &&& has_bit(word_2, 0x0000_0020) == b37
        &&& has_bit(word_2, 0x0000_0040) == b38
        &&& has_bit(word_2, 0x0000_0080) == b39
        &&& has_bit(word_2, 0x0000_0100) == b40
    }) by (bit_vector)
        requires
            word_2 == (weighted(b32, 0x0000_0001)
                + weighted(b33, 0x0000_0002)
                + weighted(b34, 0x0000_0004)
                + weighted(b35, 0x0000_0008)
                + weighted(b36, 0x0000_0010)
                + weighted(b37, 0x0000_0020)
                + weighted(b38, 0x0000_0040)
                + weighted(b39, 0x0000_0080)
                + weighted(b40, 0x0000_0100)) as u32,
    ;
}

/// A word that joins the weights of the flags that are set is the sum of
/// those weights: no two flags share a bit.
proof fn lemma_words_are_sums(capabilities: Capabilities, word_1: u32, word_2: u32)
    requires
        word_1 == spec_bit_if(capabilities.can_tag_objects, 0x0000_0001)
            | spec_bit_if(capabilities.can_generate_field_modification_events, 0x0000_0002)
            | spec_bit_if(capabilities.can_generate_field_access_events, 0x0000_0004)
            | spec_bit_if(capabilities.can_get_bytecodes, 0x0000_0008)
            | spec_bit_if(capabilities.can_get_synthetic_attribute, 0x0000_0010)
            | spec_bit_if(capabilities.can_get_owned_monitor_info, 0x0000_0020)
            | spec_bit_if(capabilities.can_get_current_contended_monitor, 0x0000_0040)
            | spec_bit_if(capabilities.can_get_monitor_info, 0x0000_0080)
            | spec_bit_if(capabilities.can_pop_frame, 0x0000_0100)
            | spec_bit_if(capabilities.can_redefine_classes, 0x0000_0200)
            | spec_bit_if(capabilities.can_signal_thread, 0x0000_0400)
            | spec_bit_if(capabilities.can_get_source_file_name, 0x0000_0800)
            | spec_bit_if(capabilities.can_get_line_numbers, 0x0000_1000)
            | spec_bit_if(capabilities.can_get_source_debug_extension, 0x0000_2000)
            | spec_bit_if(capabilities.can_access_local_variables, 0x0000_4000)
            | spec_bit_if(capabilities.can_maintain_original_method_order, 0x0000_8000)
            | spec_bit_if(capabilities.can_generate_single_step_events, 0x0001_0000)
            | spec_bit_if(capabilities.can_generate_exception_events, 0x0002_0000)
            | spec_bit_if(capabilities.can_generate_frame_pop_events, 0x0004_0000)
            | spec_bit_if(capabilities.can_generate_breakpoint_events, 0x0008_0000)
            | spec_bit_if(capabilities.can_suspend, 0x0010_0000)
            | spec_bit_if(capabilities.can_redefine_any_class, 0x0020_0000)
            | spec_bit_if(capabilities.can_get_current_thread_cpu_time, 0x0040_0000)
            | spec_bit_if(capabilities.can_get_thread_cpu_time, 0x0080_0000)
            | spec_bit_if(capabilities.can_generate_method_entry_events, 0x0100_0000)
            | spec_bit_if(capabilities.can_generate_method_exit_events, 0x0200_0000)
            | spec_bit_if(capabilities.can_generate_all_class_hook_events, 0x0400_0000)
            | spec_bit_if(capabilities.can_generate_compiled_method_load_events, 0x0800_0000)
            | spec_bit_if(capabilities.can_generate_monitor_events, 0x1000_0000)
            | spec_bit_if(capabilities.can_generate_vm_object_alloc_events, 0x2000_0000)
            | spec_bit_if(capabilities.can_generate_native_method_bind_events, 0x4000_0000)
            | spec_bit_if(capabilities.can_generate_garbage_collection_events, 0x8000_0000),
        word_2 == spec_bit_if(capabilities.can_generate_object_free_events, 0x0000_0001)
            | spec_bit_if(capabilities.can_force_early_return, 0x0000_0002)
            | spec_bit_if(capabilities.can_get_owned_monitor_stack_depth_info, 0x0000_0004)
            | spec_bit_if(capabilities.can_get_constant_pool, 0x0000_0008)
            | spec_bit_if(capabilities.can_set_native_method_prefix, 0x0000_0010)
            | spec_bit_if(capabilities.can_retransform_classes, 0x0000_0020)
            | spec_bit_if(capabilities.can_retransform_any_class, 0x0000_0040)
            | spec_bit_if(capabilities.can_generate_resource_exhaustion_heap_events, 0x0000_0080)
            | spec_bit_if(
                capabilities.can_generate_resource_exhaustion_threads_events,
                0x0000_0100,
            ),
    ensures
        word_1 == capabilities.spec_word_1(),
        word_2 == capabilities.spec_word_2(),
{
    reveal(Capabilities::spec_word_1);
    reveal(Capabilities::spec_word_2);
    let b0 = capabilities.can_tag_objects;
    let b1 = capabilities.can_generate_field_modification_events;
    let b2 = capabilities.can_generate_field_access_events;
    let b3 = capabilities.can_get_bytecodes;
    let b4 = capabilities.can_get_synthetic_attribute;
    let b5 = capabilities.can_get_owned_monitor_info;
    let b6 = capabilities.can_get_current_contended_monitor;
    let b7 = capabilities.can_get_monitor_info;
    let b8 = capabilities.can_pop_frame;
    let b9 = capabilities.can_redefine_classes;
    let b10 = capabilities.can_signal_thread;
    let b11 = capabilities.can_get_source_file_name;
    let b12 = capabilities.can_get_line_numbers;
    let b13 = capabilities.can_get_source_debug_extension;
    let b14 = capabilities.can_access_local_variables;
    let b15 = capabilities.can_maintain_original_method_order;
    let b16 = capabilities.can_generate_single_step_events;
    let b17 = capabilities.can_generate_exception_events;
    let b18 = capabilities.can_generate_frame_pop_events;
    let b19 = capabilities.can_generate_breakpoint_events;
    let b20 = capabilities.can_suspend;
    let b21 = capabilities.can_redefine_any_class;
    let b22 = capabilities.can_get_current_thread_cpu_time;
    let b23 = capabilities.can_get_thread_cpu_time;
    let b24 = capabilities.can_generate_method_entry_events;
    let b25 = capabilities.can_generate_method_exit_events;
    let b26 = capabilities.can_generate_all_class_hook_events;
    let b27 = capabilities.can_generate_compiled_method_load_events;
    let b28 = capabilities.can_generate_monitor_events;
    let b29 = capabilities.can_generate_vm_object_alloc_events;
    let b30 = capabilities.can_generate_native_method_bind_events;
    let b31 = capabilities.can_generate_garbage_collection_events;
    let b32 = capabilities.can_generate_object_free_events;
    let b33 = capabilities.can_force_early_return;
    let b34 = capabilities.can_get_owned_monitor_stack_depth_info;
    let b35 = capabilities.can_get_constant_pool;
    let b36 = capabilities.can_set_native_method_prefix;
    let b37 = capabilities.can_retransform_classes;
    let b38 = capabilities.can_retransform_any_class;
    let b39 = capabilities.can_generate_resource_exhaustion_heap_events;
    let b40 = capabilities.can_generate_resource_exhaustion_threads_events;
    assert(word_1 == (weighted(b0, 0x0000_0001)
        + weighted(b1, 0x0000_0002)
        + weighted(b2, 0x0000_0004)
        + weighted(b3, 0x0000_0008)
        + weighted(b4, 0x0000_0010)
        + weighted(b5, 0x0000_0020)
        + weighted(b6, 0x0000_0040)
        + weighted(b7, 0x0000_0080)
        + weighted(b8, 0x0000_0100)
        + weighted(b9, 0x0000_0200)
        + weighted(b10, 0x0000_0400)
        + weighted(b11, 0x0000_0800)
        + weighted(b12, 0x0000_1000)
        + weighted(b13, 0x0000_2000)
        + weighted(b14, 0x0000_4000)
        + weighted(b15, 0x0000_8000)
        + weighted(b16, 0x0001_0000)
        + weighted(b17, 0x0002_0000)
        + weighted(b18, 0x0004_0000)
        + weighted(b19, 0x0008_0000)
        + weighted(b20, 0x0010_0000)
        + weighted(b21, 0x0020_0000)
        + weighted(b22, 0x0040_0000)
        + weighted(b23, 0x0080_0000)
        + weighted(b24, 0x0100_0000)
        + weighted(b25, 0x0200_0000)
        + weighted(b26, 0x0400_0000)
        + weighted(b27, 0x0800_0000)
        + weighted(b28, 0x1000_0000)
        + weighted(b29, 0x2000_0000)
        + weighted(b30, 0x4000_0000)
        + weighted(b31, 0x8000_0000)) as u32) by (bit_vector)
        requires
            word_1 == spec_bit_if(b0, 0x0000_0001)
                | spec_bit_if(b1, 0x0000_0002)
                | spec_bit_if(b2, 0x0000_0004)
                | spec_bit_if(b3, 0x0000_0008)
                | spec_bit_if(b4, 0x0000_0010)
                | spec_bit_if(b5, 0x0000_0020)
                | spec_bit_if(b6, 0x0000_0040)
                | spec_bit_if(b7, 0x0000_0080)
                | spec_bit_if(b8, 0x0000_0100)
                | spec_bit_if(b9, 0x0000_0200)
                | spec_bit_if(b10, 0x0000_0400)
                | spec_bit_if(b11, 0x0000_0800)
                | spec_bit_if(b12, 0x0000_1000)
                | spec_bit_if(b13, 0x0000_2000)
                | spec_bit_if(b14, 0x0000_4000)
                | spec_bit_if(b15, 0x0000_8000)
                | spec_bit_if(b16, 0x0001_0000)
                | spec_bit_if(b17, 0x0002_0000)
                | spec_bit_if(b18, 0x0004_0000)
                | spec_bit_if(b19, 0x0008_0000)
                | spec_bit_if(b20, 0x0010_0000)
                | spec_bit_if(b21, 0x0020_0000)
                | spec_bit_if(b22, 0x0040_0000)
                | spec_bit_if(b23, 0x0080_0000)
                | spec_bit_if(b24, 0x0100_0000)
                | spec_bit_if(b25, 0x0200_0000)
                | spec_bit_if(b26, 0x0400_0000)
                | spec_bit_if(b27, 0x0800_0000)
                | spec_bit_if(b28, 0x1000_0000)
                | spec_bit_if(b29, 0x2000_0000)
                | spec_bit_if(b30, 0x4000_0000)
                | spec_bit_if(b31, 0x8000_0000),
    ;
    assert(word_2 == (weighted(b32, 0x0000_0001)
        + weighted(b33, 0x0000_0002)
        + weighted(b34, 0x0000_0004)
        + weighted(b35, 0x0000_0008)
        + weighted(b36, 0x0000_0010)
        + weighted(b37, 0x0000_0020)
        + weighted(b38, 0x0000_0040)
        + weighted(b39, 0x0000_0080)
        + weighted(b40, 0x0000_0100)) as u32) by (bit_vector)
        requires
            word_2 == spec_bit_if(b32, 0x0000_0001)
                | spec_bit_if(b33, 0x0000_0002)
                | spec_bit_if(b34, 0x0000_0004)
                | spec_bit_if(b35, 0x0000_0008)
                | spec_bit_if(b36, 0x0000_0010)
                | spec_bit_if(b37, 0x0000_0020)
                | spec_bit_if(b38, 0x0000_0040)
                | spec_bit_if(b39, 0x0000_0080)
                | spec_bit_if(b40, 0x0000_0100),
    ;
}

/// A word holds the bit of a weight exactly if masking it with the weight
/// leaves something.
pub proof fn lemma_bit_is_mask(word: u32, weight: u32)
    requires
        is_bit_weight(weight),
    ensures
        has_bit(word, weight) == (word & weight != 0),
{
    assert(has_bit(word, weight) == (word & weight != 0)) by (bit_vector)
        requires
            is_bit_weight(weight),
    ;
}

/// The union of two words holds a bit exactly if either word holds it.
pub proof fn lemma_union_bit(left: u32, right: u32, weight: u32)
    requires
        is_bit_weight(weight),
    ensures
        has_bit(left | right, weight) == (has_bit(left, weight) || has_bit(right, weight)),
{
    lemma_bit_is_mask(left, weight);
    lemma_bit_is_mask(right, weight);
    lemma_bit_is_mask(left | right, weight);
    assert(((left | right) & weight != 0) == (left & weight != 0 || right & weight != 0))
        by (bit_vector);
}

/// The record of a set of capabilities has no reserved bit set.
pub proof fn lemma_reserved_bits_are_zero(capabilities: Capabilities)
    ensures
        capabilities.spec_to_native().reserved_bits_are_zero(),
{
    reveal(Capabilities::spec_word_2);
}

/// Packing loses nothing: the record of a set of capabilities holds exactly
/// that set.
pub proof fn lemma_round_trip(capabilities: Capabilities)
    ensures
        Capabilities::spec_from_native(capabilities.spec_to_native()) == capabilities,
{
    lemma_words_hold_their_flags(capabilities);
}

/// Reading a record and packing what was read gives the record back, with
/// its reserved bits cleared: the two forms agree on every defined bit.
pub proof fn lemma_record_round_trip(native: NativeCapabilities)
    ensures
        Capabilities::spec_from_native(native).spec_to_native() == (NativeCapabilities {
            word_1: native.word_1,
            word_2: native.word_2 & 0x0000_01FF,
            word_3: 0,
            word_4: 0,
        }),
{
    reveal(Capabilities::spec_word_1);
    reveal(Capabilities::spec_word_2);
    let word_1 = native.word_1;
    let word_2 = native.word_2;
    assert((weighted(has_bit(word_1, 0x0000_0001), 0x0000_0001)
        + weighted(has_bit(word_1, 0x0000_0002), 0x0000_0002)
        + weighted(has_bit(word_1, 0x0000_0004), 0x0000_0004)
        + weighted(has_bit(word_1, 0x0000_0008), 0x0000_0008)
        + weighted(has_bit(word_1, 0x0000_0010), 0x0000_0010)
        + weighted(has_bit(word_1, 0x0000_0020), 0x0000_0020)
        + weighted(has_bit(word_1, 0x0000_0040), 0x0000_0040)
        + weighted(has_bit(word_1, 0x0000_0080), 0x0000_0080)
        + weighted(has_bit(word_1, 0x0000_0100), 0x0000_0100)
        + weighted(has_bit(word_1, 0x0000_0200), 0x0000_0200)
        + weighted(has_bit(word_1, 0x0000_0400), 0x0000_0400)
        + weighted(has_bit(word_1, 0x0000_0800), 0x0000_0800)
        + weighted(has_bit(word_1, 0x0000_1000), 0x0000_1000)
        + weighted(has_bit(word_1, 0x0000_2000), 0x0000_2000)
        + weighted(has_bit(word_1, 0x0000_4000), 0x0000_4000)
        + weighted(has_bit(word_1, 0x0000_8000), 0x0000_8000)
        + weighted(has_bit(word_1, 0x0001_0000), 0x0001_0000)
        + weighted(has_bit(word_1, 0x0002_0000), 0x0002_0000)
        + weighted(has_bit(word_1, 0x0004_0000), 0x0004_0000)
        + weighted(has_bit(word_1, 0x0008_0000), 0x0008_0000)
        + weighted(has_bit(word_1, 0x0010_0000), 0x0010_0000)
        + weighted(has_bit(word_1, 0x0020_0000), 0x0020_0000)
        + weighted(has_bit(word_1, 0x0040_0000), 0x0040_0000)
        + weighted(has_bit(word_1, 0x0080_0000), 0x0080_0000)
        + weighted(has_bit(word_1, 0x0100_0000), 0x0100_0000)
        + weighted(has_bit(word_1, 0x0200_0000), 0x0200_0000)
        + weighted(has_bit(word_1, 0x0400_0000), 0x0400_0000)
        + weighted(has_bit(word_1, 0x0800_0000), 0x0800_0000)
        + weighted(has_bit(word_1, 0x1000_0000), 0x1000_0000)
        + weighted(has_bit(word_1, 0x2000_0000), 0x2000_0000)
        + weighted(has_bit(word_1, 0x4000_0000), 0x4000_0000)
        + weighted(has_bit(word_1, 0x8000_0000), 0x8000_0000)) as u32
        == word_1) by (bit_vector);
    assert((weighted(has_bit(word_2, 0x0000_0001), 0x0000_0001)
        + weighted(has_bit(word_2, 0x0000_0002), 0x0000_0002)
        + weighted(has_bit(word_2, 0x0000_0004), 0x0000_0004)
        + weighted(has_bit(word_2, 0x0000_0008), 0x0000_0008)
        + weighted(has_bit(word_2, 0x0000_0010), 0x0000_0010)
        + weighted(has_bit(word_2, 0x0000_0020), 0x0000_0020)
        + weighted(has_bit(word_2, 0x0000_0040), 0x0000_0040)
        + weighted(has_bit(word_2, 0x0000_0080), 0x0000_0080)
        + weighted(has_bit(word_2, 0x0000_0100), 0x0000_0100)) as u32
        == word_2 & 0x0000_01FF) by (bit_vector);
}

/// What is read from a record depends on its defined bits and on nothing
/// else: two records give the same capabilities exactly if they agree on
/// the 41 defined bits.
pub proof fn lemma_defined_bits_decide(first: NativeCapabilities, second: NativeCapabilities)
    ensures
        Capabilities::spec_from_native(first) == Capabilities::spec_from_native(second) <==> (
        first.word_1 == second.word_1 && first.word_2 & 0x0000_01FF == second.word_2
            & 0x0000_01FF),
{
    lemma_record_round_trip(first);
    lemma_record_round_trip(second);
    let left = first.word_2;
    let right = second.word_2;
    assert(left & 0x0000_01FF == right & 0x0000_01FF ==> {
        &&& has_bit(left, 0x0000_0001) == has_bit(right, 0x0000_0001)
        &&& has_bit(left, 0x0000_0002) == has_bit(right, 0x0000_0002)
        &&& has_bit(left, 0x0000_0004) == has_bit(right, 0x0000_0004)
        &&& has_bit(left, 0x0000_0008) == has_bit(right, 0x0000_0008)
        &&& has_bit(left, 0x0000_0010) == has_bit(right, 0x0000_0010)
        &&& has_bit(left, 0x0000_0020) == has_bit(right, 0x0000_0020)
        &&& has_bit(left, 0x0000_0040) == has_bit(right, 0x0000_0040)
        &&& has_bit(left, 0x0000_0080) == has_bit(right, 0x0000_0080)
        &&& has_bit(left, 0x0000_0100) == has_bit(right, 0x0000_0100)
    }) by (bit_vector);
}

/// The union of the words of two sets holds the bit of a capability exactly
/// if either set holds the capability.
proof fn lemma_union_of_records(left: Capabilities, right: Capabilities)
    ensures
        has_bit(left.spec_word_1() | right.spec_word_1(), 0x0000_0001) == (
            left.can_tag_objects
                || right.can_tag_objects
        ),
        has_bit(left.spec_word_1() | right.spec_word_1(), 0x0000_0002) == (
            left.can_generate_field_modification_events
                || right.can_generate_field_modification_events
        ),
        has_bit(left.spec_word_1() | right.spec_word_1(), 0x0000_0004) == (
            left.can_generate_field_access_events
                || right.can_generate_field_access_events
        ),
        has_bit(left.spec_word_1() | right.spec_word_1(), 0x0000_0008) == (
            left.can_get_bytecodes
                || right.can_get_bytecodes
        ),
        has_bit(left.spec_word_1() | right.spec_word_1(), 0x0000_0010) == (
            left.can_get_synthetic_attribute
                || right.can_get_synthetic_attribute
        ),
        has_bit(left.spec_word_1() | right.spec_word_1(), 0x0000_0020) == (
            left.can_get_owned_monitor_info
                || right.can_get_owned_monitor_info
        ),
        has_bit(left.spec_word_1() | right.spec_word_1(), 0x0000_0040) == (
            left.can_get_current_contended_monitor
                || right.can_get_current_contended_monitor
        ),
        has_bit(left.spec_word_1() | right.spec_word_1(), 0x0000_0080) == (
            left.can_get_monitor_info
                || right.can_get_monitor_info
        ),
        has_bit(left.spec_word_1() | right.spec_word_1(), 0x0000_0100) == (
            left.can_pop_frame
                || right.can_pop_frame
        ),
        has_bit(left.spec_word_1() | right.spec_word_1(), 0x0000_0200) == (
            left.can_redefine_classes
                || right.can_redefine_classes
        ),
        has_bit(left.spec_word_1() | right.spec_word_1(), 0x0000_0400) == (
            left.can_signal_thread
                || right.can_signal_thread
        ),
        has_bit(left.spec_word_1() | right.spec_word_1(), 0x0000_0800) == (
            left.can_get_source_file_name
                || right.can_get_source_file_name
        ),
        has_bit(left.spec_word_1() | right.spec_word_1(), 0x0000_1000) == (
            left.can_get_line_numbers
                || right.can_get_line_numbers
        ),
        has_bit(left.spec_word_1() | right.spec_word_1(), 0x0000_2000) == (
            left.can_get_source_debug_extension
                || right.can_get_source_debug_extension
        ),
        has_bit(left.spec_word_1() | right.spec_word_1(), 0x0000_4000) == (
            left.can_access_local_variables
                || right.can_access_local_variables
        ),
        has_bit(left.spec_word_1() | right.spec_word_1(), 0x0000_8000) == (
            left.can_maintain_original_method_order
                || right.can_maintain_original_method_order
        ),
        has_bit(left.spec_word_1() | right.spec_word_1(), 0x0001_0000) == (
            left.can_generate_single_step_events
                || right.can_generate_single_step_events
        ),
        has_bit(left.spec_word_1() | right.spec_word_1(), 0x0002_0000) == (
            left.can_generate_exception_events
                || right.can_generate_exception_events
        ),
        has_bit(left.spec_word_1() | right.spec_word_1(), 0x0004_0000) == (
            left.can_generate_frame_pop_events
                || right.can_generate_frame_pop_events
        ),
        has_bit(left.spec_word_1() | right.spec_word_1(), 0x0008_0000) == (
            left.can_generate_breakpoint_events
                || right.can_generate_breakpoint_events
        ),
        has_bit(left.spec_word_1() | right.spec_word_1(), 0x0010_0000) == (
            left.can_suspend
                || right.can_suspend
        ),
        has_bit(left.spec_word_1() | right.spec_word_1(), 0x0020_0000) == (
            left.can_redefine_any_class
                || right.can_redefine_any_class
        ),
        has_bit(left.spec_word_1() | right.spec_word_1(), 0x0040_0000) == (
            left.can_get_current_thread_cpu_time
                || right.can_get_current_thread_cpu_time
        ),
        has_bit(left.spec_word_1() | right.spec_word_1(), 0x0080_0000) == (
            left.can_get_thread_cpu_time
                || right.can_get_thread_cpu_time
        ),
        has_bit(left.spec_word_1() | right.spec_word_1(), 0x0100_0000) == (
            left.can_generate_method_entry_events
                || right.can_generate_method_entry_events
        ),
        has_bit(left.spec_word_1() | right.spec_word_1(), 0x0200_0000) == (
            left.can_generate_method_exit_events
                || right.can_generate_method_exit_events
        ),
        has_bit(left.spec_word_1() | right.spec_word_1(), 0x0400_0000) == (
            left.can_generate_all_class_hook_events
                || right.can_generate_all_class_hook_events
        ),
        has_bit(left.spec_word_1() | right.spec_word_1(), 0x0800_0000) == (
            left.can_generate_compiled_method_load_events
                || right.can_generate_compiled_method_load_events
        ),
        has_bit(left.spec_word_1() | right.spec_word_1(), 0x1000_0000) == (
            left.can_generate_monitor_events
                || right.can_generate_monitor_events
        ),
        has_bit(left.spec_word_1() | right.spec_word_1(), 0x2000_0000) == (
            left.can_generate_vm_object_alloc_events
                || right.can_generate_vm_object_alloc_events
        ),
        has_bit(left.spec_word_1() | right.spec_word_1(), 0x4000_0000) == (
            left.can_generate_native_method_bind_events
                || right.can_generate_native_method_bind_events
        ),
        has_bit(left.spec_word_1() | right.spec_word_1(), 0x8000_0000) == (
            left.can_generate_garbage_collection_events
                || right.can_generate_garbage_collection_events
        ),
        has_bit(left.spec_word_2() | right.spec_word_2(), 0x0000_0001) == (
            left.can_generate_object_free_events
                || right.can_generate_object_free_events
        ),
        has_bit(left.spec_word_2() | right.spec_word_2(), 0x0000_0002) == (
            left.can_force_early_return
                || right.can_force_early_return
        ),
        has_bit(left.spec_word_2() | right.spec_word_2(), 0x0000_0004) == (
            left.can_get_owned_monitor_stack_depth_info
                || right.can_get_owned_monitor_stack_depth_info
        ),
        has_bit(left.spec_word_2() | right.spec_word_2(), 0x0000_0008) == (
            left.can_get_constant_pool
                || right.can_get_constant_pool
        ),
        has_bit(left.spec_word_2() | right.spec_word_2(), 0x0000_0010) == (
            left.can_set_native_method_prefix
                || right.can_set_native_method_prefix
        ),
        has_bit(left.spec_word_2() | right.spec_word_2(), 0x0000_0020) == (
            left.can_retransform_classes
                || right.can_retransform_classes
        ),
        has_bit(left.spec_word_2() | right.spec_word_2(), 0x0000_0040) == (
            left.can_retransform_any_class
                || right.can_retransform_any_class
        ),
        has_bit(left.spec_word_2() | right.spec_word_2(), 0x0000_0080) == (
            left.can_generate_resource_exhaustion_heap_events
                || right.can_generate_resource_exhaustion_heap_events
        ),
        has_bit(left.spec_word_2() | right.spec_word_2(), 0x0000_0100) == (
            left.can_generate_resource_exhaustion_threads_events
                || right.can_generate_resource_exhaustion_threads_events
        ),
{
    lemma_words_hold_their_flags(left);
    lemma_words_hold_their_flags(right);
    lemma_union_bit(left.spec_word_1(), right.spec_word_1(), 0x0000_0001);
    lemma_union_bit(left.spec_word_1(), right.spec_word_1(), 0x0000_0002);
    lemma_union_bit(left.spec_word_1(), right.spec_word_1(), 0x0000_0004);
    lemma_union_bit(left.spec_word_1(), right.spec_word_1(), 0x0000_0008);
    lemma_union_bit(left.spec_word_1(), right.spec_word_1(), 0x0000_0010);
    lemma_union_bit(left.spec_word_1(), right.spec_word_1(), 0x0000_0020);
    lemma_union_bit(left.spec_word_1(), right.spec_word_1(), 0x0000_0040);
    lemma_union_bit(left.spec_word_1(), right.spec_word_1(), 0x0000_0080);
    lemma_union_bit(left.spec_word_1(), right.spec_word_1(), 0x0000_0100);
    lemma_union_bit(left.spec_word_1(), right.spec_word_1(), 0x0000_0200);
    lemma_union_bit(left.spec_word_1(), right.spec_word_1(), 0x0000_0400);
    lemma_union_bit(left.spec_word_1(), right.spec_word_1(), 0x0000_0800);
    lemma_union_bit(left.spec_word_1(), right.spec_word_1(), 0x0000_1000);
    lemma_union_bit(left.spec_word_1(), right.spec_word_1(), 0x0000_2000);
    lemma_union_bit(left.spec_word_1(), right.spec_word_1(), 0x0000_4000);
    lemma_union_bit(left.spec_word_1(), right.spec_word_1(), 0x0000_8000);
    lemma_union_bit(left.spec_word_1(), right.spec_word_1(), 0x0001_0000);
    lemma_union_bit(left.spec_word_1(), right.spec_word_1(), 0x0002_0000);
    lemma_union_bit(left.spec_word_1(), right.spec_word_1(), 0x0004_0000);
    lemma_union_bit(left.spec_word_1(), right.spec_word_1(), 0x0008_0000);
    lemma_union_bit(left.spec_word_1(), right.spec_word_1(), 0x0010_0000);
    lemma_union_bit(left.spec_word_1(), right.spec_word_1(), 0x0020_0000);
    lemma_union_bit(left.spec_word_1(), right.spec_word_1(), 0x0040_0000);
    lemma_union_bit(left.spec_word_1(), right.spec_word_1(), 0x0080_0000);
    lemma_union_bit(left.spec_word_1(), right.spec_word_1(), 0x0100_0000);
    lemma_union_bit(left.spec_word_1(), right.spec_word_1(), 0x0200_0000);
    lemma_union_bit(left.spec_word_1(), right.spec_word_1(), 0x0400_0000);
    lemma_union_bit(left.spec_word_1(), right.spec_word_1(), 0x0800_0000);
    lemma_union_bit(left.spec_word_1(), right.spec_word_1(), 0x1000_0000);
    lemma_union_bit(left.spec_word_1(), right.spec_word_1(), 0x2000_0000);
    lemma_union_bit(left.spec_word_1(), right.spec_word_1(), 0x4000_0000);
    lemma_union_bit(left.spec_word_1(), right.spec_word_1(), 0x8000_0000);
    lemma_union_bit(left.spec_word_2(), right.spec_word_2(), 0x0000_0001);
    lemma_union_bit(left.spec_word_2(), right.spec_word_2(), 0x0000_0002);
    lemma_union_bit(left.spec_word_2(), right.spec_word_2(), 0x0000_0004);
    lemma_union_bit(left.spec_word_2(), right.spec_word_2(), 0x0000_0008);
    lemma_union_bit(left.spec_word_2(), right.spec_word_2(), 0x0000_0010);
    lemma_union_bit(left.spec_word_2(), right.spec_word_2(), 0x0000_0020);
    lemma_union_bit(left.spec_word_2(), right.spec_word_2(), 0x0000_0040);
    lemma_union_bit(left.spec_word_2(), right.spec_word_2(), 0x0000_0080);
    lemma_union_bit(left.spec_word_2(), right.spec_word_2(), 0x0000_0100);
}

/// Where an environment that holds `prior` adds `new` as the interface
/// documents, by taking each bit that either record holds, the set that it
/// holds afterwards is the union of the two: every capability of `prior` and
/// every capability of `new` is in it, and no other.
pub proof fn lemma_union_keeps_every_flag(prior: Capabilities, new: Capabilities)
    ensures
        Capabilities::spec_from_native(
            prior.spec_to_native().spec_union(new.spec_to_native()),
        ) == prior.spec_merge(new),
        prior.spec_merge(new).includes(prior),
        prior.spec_merge(new).includes(new),
{
    lemma_union_of_records(prior, new);
}

} // verus!
