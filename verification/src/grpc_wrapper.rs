//! Plain values for the wire layer.

pub mod raw_common_types;
pub mod raw_ydb_operation;
