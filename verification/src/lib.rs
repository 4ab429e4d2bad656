//! A content-addressed file store behind an HTTP upload and download endpoint.
//!
//! A file is stored under the SHA-256 hash of its bytes, together with the
//! name it was last uploaded with. The library decides; its caller performs
//! the input and output. [`http`] turns what was read from a request into the
//! response to send, [`store`] names the operations on the storage directory
//! one at a time, and [`model`] states what follows for uploads and downloads
//! on a directory that carries those operations out.

pub mod digest;
pub mod error;
pub mod http;
pub mod layout;
pub mod media;
pub mod model;
pub mod store;
