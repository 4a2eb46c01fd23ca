//! SQL-text helpers shared by the handlers.
pub mod identifiers;
pub mod json_columns;
pub mod pagination;
pub mod sql;
