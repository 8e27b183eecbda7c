//! Index records as the API shows them.
use vstd::prelude::*;
use vstd::string::*;
use crate::db::model::{EntityId, IndexEntity};

verus! {

/// An index. The status is the state's JSON text, as it was published.
#[derive(Clone, Debug, PartialEq)]
pub struct Index {
    pub index_id: EntityId,
    pub index_type: String,
    pub data_source: String,
    pub region: String,
    pub status: String,
    pub created_at: i64,
    pub updated_at: i64,
}

impl Index {
    /// The index that the API shows for a record of the store, which is
    /// left as it is.
    pub fn of(entity: &IndexEntity) -> (r: Index)
        ensures
            r.index_id == entity.index_id,
            r.index_type == entity.index_type,
            r.data_source == entity.data_source,
            r.region == entity.region,
            r.status == entity.status,
            r.created_at == entity.created_at,
            r.updated_at == entity.updated_at,
    {
        Index {
            index_id: entity.index_id,
            index_type: entity.index_type.clone(),
            data_source: entity.data_source.clone(),
            region: entity.region.clone(),
            status: entity.status.clone(),
            created_at: entity.created_at,
            updated_at: entity.updated_at,
        }
    }

    /// The index that the API shows for a record of the store: the same,
    /// field for field.
    pub fn from(entity: IndexEntity) -> (r: Index)
        ensures
            r.index_id == entity.index_id,
            r.index_type == entity.index_type,
            r.data_source == entity.data_source,
            r.region == entity.region,
            r.status == entity.status,
            r.created_at == entity.created_at,
            r.updated_at == entity.updated_at,
    {
        let IndexEntity {
            index_id,
            index_type,
            data_source,
            region,
            status,
            created_at,
            updated_at,
        } = entity;
        Index { index_id, index_type, data_source, region, status, created_at, updated_at }
    }
}

} // verus!
