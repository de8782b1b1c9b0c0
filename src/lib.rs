//! Decoder for Persistent Data Record files: a header, a stream of packed
//! name/type tokens, a stream of 32-bit arguments and a string table.
//!
//! - [`reader`] loads a record from the bytes of a file and checks its header;
//! - [`pd`] holds the record, its tokens and their types;
//! - [`format`] is the decoding session that takes typed values off a record;
//! - [`patch`] is the product description of a patch, read through a session.
pub mod error;
pub mod format;
pub mod patch;
pub mod pd;
pub mod reader;
