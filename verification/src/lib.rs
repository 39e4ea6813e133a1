//! Hot-reloadable, validated configuration for a notification daemon.
//!
//! The crate holds the decisions of the configuration subsystem as verified
//! code: the geometry value types of the schema, the schema itself with its
//! validation rule, the search order of the locator, the lifecycle of the
//! registry that owns the current configuration, and the coalescing of
//! filesystem events. Probing paths, reading and parsing files and
//! subscribing to the filesystem are left to the caller, which hands the
//! outcomes in as plain values.

pub mod dimensions;
pub mod error;
pub mod geometry;
pub mod locator;
pub mod registry;
pub mod schema;
pub mod watcher;
