//! Hosting a CLR-style managed runtime from a native process.
//!
//! The crate is the host side of the binding. It owns every value that
//! crosses the native boundary, says what each answer of the runtime means,
//! and enforces the life cycle of the runtime, which is a process-wide
//! singleton:
//!
//! - [`marshal`] and [`wide`] make the native forms of strings, of argument
//!   arrays and of property tables, in UTF-8 and in UTF-16;
//! - [`properties`] holds the table that configures the runtime;
//! - [`loader`] decides what opening the runtime's library came to;
//! - [`state`] holds the states of a host and the slot that keeps the
//!   runtime single;
//! - [`host`] holds what a platform host can do, the two platform hosts, and
//!   [`host::CoreClr`], the manager that callers hold.
//!
//! The native entry points themselves are reached through the traits
//! [`host::unix::NativeRuntime`] and [`host::windows::RuntimeHostInterface`],
//! which the embedding program implements over the loaded runtime. Whatever
//! such an implementation answers, the host deals with it as its contracts
//! say.

pub mod error;
pub mod host;
pub mod loader;
pub mod marshal;
pub mod properties;
pub mod state;
pub mod wide;
