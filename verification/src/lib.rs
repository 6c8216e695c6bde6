//! A persistent store for shell command-execution records.
//!
//! Each executed command is recorded as a [`item::HistoryItem`] with optional
//! metadata (timestamp, working directory, host, duration, exit status and an
//! extensible payload), and can later be retrieved by identity or through a
//! filtered, directional search described by a [`query::SearchQuery`].
//!
//! The search semantics are stated as specification functions in [`query`],
//! the lowering of a query to a parameterized statement lives in [`sqlgen`],
//! and the embedded-database backend in [`store`].

use vstd::prelude::*;

pub mod item;
pub mod query;
pub mod sqlgen;
pub mod store;

verus! {

/// The closed set of failure categories of the store.
///
/// Every operation surfaces its failure synchronously as one of these kinds;
/// nothing is retried internally.
#[derive(Debug, Clone, PartialEq, Eq)]
pub enum StorageError {
    /// The target of a load or delete does not exist.
    NotFound,
    /// The extensible payload of a stored row failed to decode. The
    /// default payload accepts any stored text, so stores of it never
    /// produce this kind; it stands for payload shapes that can fail.
    SerializationError,
    /// Directory or file creation or open failed.
    IoError(String),
    /// The underlying database operation failed; carries its description.
    BackendError(String),
}

} // verus!
