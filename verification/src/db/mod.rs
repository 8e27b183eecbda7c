//! The index store, as the rest of the library sees it.
pub mod model;
pub mod sqlite;
