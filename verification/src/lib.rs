//! Typed bindings over the JVM Tool Interface.
//!
//! The crate holds the part of an agent that can be reasoned about without a
//! running virtual machine: the translation of status codes, the packing of
//! capability flags into the interface's bitfield record, the decoding of
//! version words and thread records, and the table of event callbacks. The
//! interface itself is reached through [`native::NativeInterface`], which a
//! host implements over the environment handle it was given.

pub mod capabilities;
pub mod environment;
pub mod error;
pub mod event;
pub mod event_handler;
pub mod native;
pub mod thread;
pub mod util;
pub mod version;
