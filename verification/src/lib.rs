//! An in-memory store of student records with auto-incrementing identifiers.
//!
//! The store offers the five classic operations — create, list, point lookup,
//! in-place update and removal — over a single collection of records, each
//! carrying a unique identifier handed out by a strictly increasing counter.
//! Identifiers start at 1 and are never reused, even after a record is
//! deleted.

pub mod laws;
pub mod model;
pub mod store;
