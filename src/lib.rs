//! A verified typed layer over a hierarchical hexagonal grid engine.
//!
//! The engine itself (cell subdivision, base cells, boundaries, grid distance)
//! is reached from outside this library; what stands here is the typed model
//! and every decision that turns an engine answer into a typed outcome: the
//! validated index, the error taxonomy, the check of text handed to the engine's
//! parser, the decoding of the engine's text buffer and the copy of the populated
//! part of a boundary buffer.
mod boundary;
mod error;
mod index;
mod text;

pub use boundary::{populated_prefix, MAX_CELL_BNDRY_VERTS};
pub use error::Error;
pub use index::H3Index;
pub use text::{
    engine_text, fallback_text, holds_nul, lemma_padded_text_round_trip, nul_padding, text_from_buffer,
    text_of_buffer, trim_nuls, H3_STRING_BUFFER_LEN,
};
