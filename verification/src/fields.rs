//! The field and value identifiers that tie an entity's generated field tags
//! to column names and parameters, so that no column name is ever typed by
//! hand.

use vstd::prelude::*;
use crate::value::{Parameter, ParameterValue};

verus! {

/// What a column name is: a sequence of characters.
pub type ColumnName = Seq<char>;

/// Names the column behind a tag that stands for one field of the entity
/// `T`.
pub trait FieldIdentifier<T> {
    /// The column that the tag stands for.
    spec fn column_name(&self) -> ColumnName;

    /// The column name, as the backend expects it.
    fn as_str(&self) -> (name: &'static str)
        ensures
            name@ == self.column_name(),
    ;
}

/// A tag that stands for one field of the entity `T` and carries a value for
/// it.
pub trait FieldValueIdentifier<T> {
    /// The column that the tag stands for.
    spec fn column_name(&self) -> ColumnName;

    /// The value that the tag carries.
    spec fn parameter(&self) -> Parameter;

    /// The column name together with the value.
    fn value(self) -> (r: (&'static str, ParameterValue))
        ensures
            r.0@ == self.column_name(),
            r.1.deep_view() == self.parameter(),
    ;
}

/// The parent side of a foreign-key relation to the entity `T`: it knows the
/// value behind each of its columns that a child may refer to.
pub trait ForeignKeyable<T> {
    /// The value that this side holds for `column`, if it has that column.
    spec fn fk_parameter(&self, column: ColumnName) -> Option<Parameter>;

    /// The value that this side holds for `column`.
    fn get_fk_column(&self, column: &str) -> (r: Option<ParameterValue>)
        ensures
            r.deep_view() == self.fk_parameter(column@),
    ;
}

} // verus!
