//! Sandboxed path resolution rooted at directory capabilities.
//!
//! A capability is an open directory handle with no ambient path authority.
//! This crate holds the decision logic that turns (capability, untrusted
//! relative path, open intent) into either a resolution strictly inside the
//! capability's subtree or a well-defined error: path parsing, the manual
//! component-by-component walker, the native fast-path retry/classification
//! machine with its monotonic support flag, parent decomposition for
//! mutations, reopen planning, and the divergence-checking harness. The
//! syscalls themselves are performed by a driver outside this crate, which
//! feeds their outcomes back into these state machines as plain values.

pub mod divergence;
pub mod errors;
pub mod native;
pub mod options;
pub mod parent;
pub mod path;
pub mod reopen;
pub mod walker;
