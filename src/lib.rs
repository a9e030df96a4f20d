//! Mapping of in-memory records onto the column list and the value list of
//! an SQL `INSERT` statement, with the agreement between each value's SQL type
//! and its column's SQL type stated and checked by the verifier.

pub mod types;
pub mod query_builder;
pub mod query_source;
pub mod expression;
pub mod persistable;

pub use expression::ValueList;
pub use persistable::{InsertError, InsertValues, Insertable};
pub use query_builder::{BuildError, BuildQueryResult, QueryBuilder};
pub use query_source::{Column, ColumnList, ColumnSetError, InsertableColumns};
pub use types::{SqlType, Value};
