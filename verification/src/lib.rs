//! A validator/encoder for 4-byte chunk type codes, the tags that classify
//! records in a PNG-like binary container format.

pub mod chunk_type;

pub use chunk_type::ChunkType;
pub use chunk_type::ChunkTypeError;
