//! Verified orchestration core for identifying an attached microcontroller
//! over a debug probe and programming a firmware image into its flash.
//!
//! The crate holds the decision logic of that workflow: resolving a raw chip
//! identifier to a symbolic target, partitioning a target's memory map,
//! conditioning the flash operation on a confirmed core halt, and tracking the
//! staged progress of the flash operation itself. The hardware transport is
//! driven elsewhere; this library is handed plain values (identifiers,
//! region lists, halt reports, progress events) and decides what happens.

pub mod identify;
pub mod memory;
pub mod progress;
pub mod session;
pub mod workflow;
