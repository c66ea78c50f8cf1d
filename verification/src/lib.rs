//! Reading and writing ID3v1 tags: the 128-byte block of song metadata that
//! closes a media file.
//!
//! The library works on bytes that are already in memory. Opening files,
//! seeking and writing are left to the caller.

pub mod error;
pub mod genre;
pub mod lemmas;
pub mod tag;
pub mod text;

pub use error::ReadError;
pub use tag::ID3v1;
pub use text::ISO_8859_1;
