//! A file treated as a growable, byte-addressable region of memory.
//!
//! The file is mapped once into a virtual reservation far larger than any file it will
//! hold; growing or shrinking it only changes the file's length underneath. Every read
//! and write is checked against the current logical size before it touches a byte.
//! One process, one writer: nothing here coordinates concurrent access.
pub mod errors;
pub mod extent;
pub mod model;

pub use errors::MmapError;
pub use extent::{BoundsError, Extent};
pub use model::RESERVATION;
