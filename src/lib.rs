//! Four-letter chunk-type codes of tagged binary containers.
//!
//! A chunk type is four ASCII letters; the case of each letter carries one
//! flag. This crate builds such codes from bytes or text, checks them, reads
//! their flags and renders them back to text.
pub mod chunk_type;

pub use chunk_type::{ChunkError, ChunkType};
