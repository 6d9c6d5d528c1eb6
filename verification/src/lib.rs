//! Typed handles for Zircon kernel thread objects, together with the
//! ownership and lifecycle contract that any such handle layer must uphold.
//!
//! The kernel itself — its handle table, scheduler and thread state machine —
//! is an external collaborator reached only through raw syscalls, which this
//! library cannot issue. What it can state and prove is the contract those
//! syscalls obey as far as a handle wrapper depends on it: which handle
//! values name live objects, how a thread moves from created to running to
//! terminated, when an operation is owed success, and how every raw status
//! code surfaces to the caller without loss. The [`kernel`] module carries
//! that contract as an explicit model; [`thread`] and [`profile`] are the
//! typed facades over untyped [`handle::Handle`] values; [`status`] is the
//! status-code domain and its translation into a typed result.

pub mod handle;
pub mod kernel;
pub mod profile;
pub mod status;
pub mod thread;
