//! What the API hands out, and how the bus's messages become it.
pub mod model;
pub mod indexes;
pub mod gql;
