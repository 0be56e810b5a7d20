//! A case-insensitive text value for `citext` columns: the text is stored as
//! written, while equality, ordering and hashing look at its lowercase form.

pub mod sql_types;
pub mod types;
pub mod codec;
