//! Row mappers: from one raw row to one entity.

use vstd::prelude::*;
use crate::error::ErrorKind;
use crate::row::{PostgresRow, RowModel, SqlServerRow};

verus! {

/// An application-defined record that the rows of one table decode to.
pub trait Entity {
    /// What an entity is, as contracts see it.
    type Model;

    /// What the entity is.
    spec fn model(&self) -> Self::Model;
}

/// The model of what a decoding of one row returned.
pub open spec fn decoded_model<T: Entity>(r: Result<T, ErrorKind>) -> Result<T::Model, ErrorKind> {
    match r {
        Ok(entity) => Ok(entity.model()),
        Err(e) => Err(e),
    }
}

/// Decodes a raw row of either backend into the entity `T`. Decoding is a
/// function of the row alone: it reads no other state and has no effect.
pub trait RowMapper<T: Entity>: Sized {
    /// The entity that a row decodes to, or why it does not.
    spec fn entity_of(row: RowModel) -> Result<T::Model, ErrorKind>;

    /// Decodes a row that PostgreSQL returned.
    fn deserialize_postgresql(row: &PostgresRow) -> (r: Result<T, ErrorKind>)
        ensures
            decoded_model(r) == Self::entity_of(row.model()),
    ;

    /// Decodes a row that SQL Server returned.
    fn deserialize_sqlserver(row: &SqlServerRow) -> (r: Result<T, ErrorKind>)
        ensures
            decoded_model(r) == Self::entity_of(row.model()),
    ;
}

} // verus!
