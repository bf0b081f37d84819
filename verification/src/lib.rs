//! Relocating a mounted filesystem subtree from one process's mount
//! namespace into another's.
//!
//! The transfer runs in three phases: detach a private, namespace-independent
//! handle to the subtree while the source namespace is active, switch the
//! acting thread to the destination namespace, and attach the detached
//! subtree at a path resolved there. Getting the order of namespace switches
//! wrong relative to handle acquisition silently resolves paths in the wrong
//! namespace, so the sequencing itself is the invariant this crate states and
//! proves: [`protocol`] models the transfer as a linear state machine, and
//! [`laws`] proves that a clone is only ever issued while the source
//! namespace is ambient and an attach only while the destination namespace
//! is, that the clone always requests detachment, and that any failure
//! aborts the whole transfer at once.
//!
//! The kernel calls themselves (namespace join, tree clone, tree move) are
//! performed by the embedding program, which drives the state machine: it
//! asks [`protocol::next_action`] what to do, performs the kernel call, and
//! reports the outcome back through [`protocol::apply_event`]. [`flags`]
//! fixes the exact flag words those calls take, [`anchor`] the
//! descriptor-plus-path addressing of their operands, [`error`] the mapping
//! of raw error codes into the transfer's error taxonomy, and [`paths`] the
//! namespace-handle path under the process filesystem.

pub mod anchor;
pub mod error;
pub mod flags;
pub mod laws;
pub mod paths;
pub mod protocol;
