//! The fuzzing-state lifecycle of a client/server fuzzer that works from
//! snapshots: how a state is identified, where its snapshot lives on disk,
//! and how a new state is derived from a saved one.
//!
//! - [`coordinate`]: the pair of rounds that identifies a state, and the rule
//!   that derives its successor.
//! - [`naming`]: the names of states on disk.
//! - [`layout`]: the paths of the active and the saved area.
//! - [`action`]: what is asked of the file system and of other programs, and
//!   what they answer.
//! - [`procedure`]: lists of stages, carried out one action at a time.
//! - [`fileops`]: copying, moving and removing directory trees.
//! - [`store`]: allocating, propagating into and promoting active
//!   directories.
//! - [`engine`]: deriving and materializing a new state.
//!
//! The library decides; it performs nothing. Every operation is returned as
//! a [`procedure::Procedure`], whose pending action the caller performs and
//! whose answer the caller reports.

pub mod action;
pub mod coordinate;
pub mod engine;
pub mod fileops;
pub mod layout;
pub mod naming;
pub mod procedure;
pub mod store;
