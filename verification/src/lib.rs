//! Plans the SQL statements and parameter bindings of a table-mapped struct
//! from a description of its declaration.

use vstd::prelude::*;

pub mod common_fields;
pub mod search;
pub mod sql_helper;
pub mod statements;
pub mod syntax;
pub mod text;

verus! {

/// The attribute that marks the key field, and that field's default name.
pub const DEFAULT_ID_NAME: &'static str = "id";

/// The attribute that marks the creation time, and that field's default name.
pub const DEFAULT_CREATE_TIME_NAME: &'static str = "create_time";

/// The attribute that marks the time of the last update, and that field's
/// default name.
pub const DEFAULT_UPDATE_TIME_NAME: &'static str = "update_time";

} // verus!
