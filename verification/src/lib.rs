//! A backend-agnostic data-access core: typed query parameters, rows that
//! hide which database produced them, and a query builder whose SQL text and
//! parameter list cannot drift apart.
//!
//! - `value`, `decode`: the scalars of the application, what PostgreSQL and
//!   SQL Server take for them, and what their native values read back as.
//! - `postgres`, `sqlserver`: the native values of the two backends.
//! - `scalar`, `wire`: dates, times and floating-point numbers as plain
//!   numbers, and integers as big-endian bytes.
//! - `row`: rows of either backend behind one interface.
//! - `fields`, `mapper`, `results`: the ties between an entity and its
//!   columns, from raw rows to entities.
//! - `query`, `placeholder`, `crud`: statements, their parameter markers, and
//!   the statements behind the CRUD operations.
//! - `error`: the failures.

pub mod crud;
pub mod decode;
pub mod error;
pub mod fields;
pub mod mapper;
pub mod placeholder;
pub mod postgres;
pub mod query;
pub mod results;
pub mod row;
pub mod scalar;
pub mod sqlserver;
pub mod value;
pub mod wire;
