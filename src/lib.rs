//! Typed extraction of tagged column values, and a tuple column built from
//! independently typed sub-columns.
pub mod sql_type;
pub mod value;
pub mod from_sql;
pub mod column;
pub mod laws;
