//! Environments of the interface.

pub mod jvmti;
