//! Core of a small write-once, read-many paste service: identifier
//! generation, identifier validation, and the store mapping each
//! identifier to one immutable piece of content.

pub mod errors;
pub mod id;
pub mod service;
pub mod store;
