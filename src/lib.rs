//! Building blocks for generated REST API bindings: lenient decoding of
//! loosely typed JSON fields, continuation-token pagination, and the small
//! amount of URL assembly that the endpoint methods share.

pub mod wire;
pub mod deserialize_null_string;
pub mod deserialize_null_boolean;
pub mod deserialize_null_i32;
pub mod deserialize_null_i64;
pub mod utils;
pub mod paging;
pub mod query;
pub mod client;
pub mod revisions;
pub mod employees;
