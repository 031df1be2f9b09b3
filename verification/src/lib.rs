//! A typed, memory-safe surface over a native windowing toolkit.
//!
//! The toolkit itself (window layout, rendering, platform event loops) is an
//! opaque external collaborator reached through a fixed C-level call table by
//! the host application.  This crate keeps the canonical record of everything
//! that layer is told about each window: the registry of windows in creation
//! order, each window's properties, and which callback is registered for each
//! event kind.  Every operation on that record is specified and verified.

pub mod model;
pub mod windows;
pub mod laws;
