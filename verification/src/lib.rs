//! Persistence rules for a catalogue of subscribable feeds: the status
//! codec, the mapping from stored rows to entities, and the statements of
//! the five repository operations.

pub mod feed;
pub mod repository;
pub mod statement;
pub mod status;
pub mod timestamp;
