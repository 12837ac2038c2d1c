//! Color-glyph support for OpenType fonts.
//!
//! The heart of the crate is the paint-graph evaluator in [`colr`]: given a
//! resolved view of a font's color table, it walks the paint graph for a
//! glyph and emits a flat, replayable stream of drawing commands.
//! Fixed-point arithmetic stands in for the font's binary scalar formats
//! throughout, so every computation here is exact and verified.

use vstd::prelude::*;

pub mod color;
pub mod data;
pub mod colr;
pub mod fixed;
pub mod hint;
pub mod hint_math;
pub mod hint_state;
pub mod library;
pub mod locale;
pub mod meta;
pub mod outline;
pub mod paint;
pub mod path;
pub mod transform;

verus! {

/// An error raised while loading a color glyph.
#[derive(Copy, Clone, PartialEq, Eq, Structural, Debug)]
pub enum Error {
    /// No color table is available at all.
    NoSources,
    /// The requested glyph is absent from the color table.
    GlyphNotFound(u16),
    /// A structurally invalid record, range or index was encountered while
    /// walking the table.
    ReadError,
    /// The paint graph nests deeper than the evaluator's defensive ceiling.
    DepthLimitExceeded,
}

} // verus!
