//! A registry for the one meter provider that a process treats as
//! authoritative, with accessors that create meters from it.
//!
//! The registry is plain state: it is meant to live behind a reader/writer
//! lock owned by the embedding program, which hands out `&mut` access to
//! writers and `&` access to readers.

pub mod scope;
pub mod metrics;
pub mod global;
