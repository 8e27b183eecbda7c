//! Index records as SQLite returns them.
use vstd::prelude::*;
use vstd::string::*;
use crate::db::model::{EntityId, IndexEntity};

verus! {

/// A row of the `indexes` table. SQLite keeps the two instants as 32-bit
/// counts of seconds.
#[derive(Clone, Debug, PartialEq)]
pub struct SqliteIndexEntity {
    pub index_id: EntityId,
    pub index_type: String,
    pub data_source: String,
    pub region: String,
    pub status: String,
    pub created_at: i32,
    pub updated_at: i32,
}

impl IndexEntity {
    /// The record that a row stands for: the same, with the instants
    /// widened.
    pub fn from(row: SqliteIndexEntity) -> (r: IndexEntity)
        ensures
            r.index_id == row.index_id,
            r.index_type == row.index_type,
            r.data_source == row.data_source,
            r.region == row.region,
            r.status == row.status,
            r.created_at == row.created_at,
            r.updated_at == row.updated_at,
    {
        let SqliteIndexEntity {
            index_id,
            index_type,
            data_source,
            region,
            status,
            created_at,
            updated_at,
        } = row;
        IndexEntity {
            index_id,
            index_type,
            data_source,
            region,
            status,
            created_at: created_at as i64,
            updated_at: updated_at as i64,
        }
    }
}

} // verus!
