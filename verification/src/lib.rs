//! A verified decoder for virtual-branch records stored as individual
//! string-valued entries in a key-value namespace.
pub mod branch;
pub mod oid;
pub mod ownership;
pub mod reader;
pub mod refname;
pub mod text;
