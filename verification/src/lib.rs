//! Persistence of one application-defined state value in the per-user
//! configuration directory, wrapped in a timestamped envelope.
//!
//! The crate holds the decisions: how a coordinator is configured, which
//! directory and file it addresses, in which order a load or a store touches
//! the file system and the serialization backend, and how each failure is
//! reported. The file system and the backend themselves are run by the caller,
//! who performs the action that [`Persist::load`] or [`Persist::store`] hands
//! out and hands back what came of it.

pub mod backend;
pub mod envelope;
pub mod error;
pub mod load;
pub mod location;
pub mod persist;
pub mod store;

pub use backend::FormatError;
pub use envelope::{Abseil, Timestamp};
pub use error::Error;
pub use load::{LoadAction, LoadEvent};
pub use persist::{Persist, PersistBuilder, PersistView};
pub use store::{StoreAction, StoreEvent};
