//! An in-memory data service over a normalized object graph of skills,
//! employees and projects.
//!
//! Entities are stored once, addressed by a stable integer position, and
//! cross-reference one another by position rather than by embedding. A
//! resolver turns a position into the fully denormalized public form of the
//! entity, recursively embedding everything it references, and a thin query
//! facade exposes one such resolution pass per collection. Referential
//! integrity — every stored reference points at an existing entity — is
//! established at construction and is an invariant of the store.

pub mod digits;
pub mod facade;
pub mod laws;
pub mod resolve;
pub mod store;
