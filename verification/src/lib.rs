//! An in-memory book repository: a growable, append-only store of book
//! records together with the creation workflow built on top of it —
//! presence validation of the request, duplicate-title detection, and
//! construction of the new record with a fresh identifier and timestamps.

pub mod api;
pub mod book;
pub mod error;
mod fresh;
pub mod laws;
pub mod repository;

pub use book::{Book, CreateBook, Timestamp};
pub use error::{CreationError, ErrorBody};
pub use repository::{has_invalid_params_on_create, MemoryRepository};
