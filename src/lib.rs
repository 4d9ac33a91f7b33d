//! Single-table persistence helpers for flat records: a record schema, the SQL
//! statements and positional parameters derived from it, decoding of rows back
//! into records, a content digest for change detection, and the request and
//! response shims.

pub mod text;
pub mod schema;
pub mod sql;
pub mod value;
pub mod hash;
pub mod response;
pub mod request;
