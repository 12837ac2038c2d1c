//! The resolved view of a font's color table.
//!
//! A [`PaintTable`] holds, as plain values, what the evaluator reads from
//! the font's color records: the version-0 layer lists, the version-1 paint
//! graph stored as an arena of [`PaintNode`]s addressed by index, the clip
//! list, and a list of per-instance variation deltas. Scalars are 16.16
//! fixed point; angles are 16.16 half-turns. A scalar that can vary across
//! the design space carries the index of its delta in the table's delta
//! list.

use vstd::prelude::*;
use crate::color::CompositeMode;
use crate::color::Extend;
use crate::fixed::sat_add_spec;
use crate::fixed::sat_add;

verus! {

/// Identifier for a glyph.
pub type GlyphId = u16;

/// A 16.16 scalar with an optional variation-delta index.
#[derive(Copy, Clone, PartialEq, Eq, Debug)]
pub struct VarScalar {
    /// The base value from the font.
    pub base: i32,
    /// Index of the per-instance delta to add, if the value varies.
    pub var_index: Option<u32>,
}

/// A point whose coordinates may vary.
#[derive(Copy, Clone, PartialEq, Eq, Debug)]
pub struct VarPoint {
    pub x: VarScalar,
    pub y: VarScalar,
}

/// One color stop of a gradient's color line, before resolution.
#[derive(Copy, Clone, PartialEq, Eq, Debug)]
pub struct ColorStopRecord {
    /// Offset of the stop as a 16.16 fraction of the gradient span.
    pub offset: VarScalar,
    /// Palette index of the stop's color.
    pub palette_index: u16,
    /// Alpha scale for the stop's color.
    pub alpha: VarScalar,
}

/// One node of the version-1 paint graph. Child paints are indices into the
/// table's paint arena; layer ranges index its layer list.
#[derive(Clone, PartialEq, Eq, Debug)]
pub enum PaintNode {
    /// A run of layers painted bottom to top.
    Layers { first: u32, count: u32 },
    /// A reference to another color glyph's root paint.
    ColorGlyph { glyph_id: GlyphId },
    /// Blends a source over a backdrop with a composite mode, inside an
    /// isolation layer.
    Composite { backdrop: u32, mode: CompositeMode, source: u32 },
    /// Clips a child paint to a glyph's outline.
    Glyph { glyph_id: GlyphId, paint: u32 },
    /// A solid fill from the palette, scaled by an alpha.
    Solid { palette_index: u16, alpha: VarScalar },
    /// A linear gradient given by the three-point convention: `p2` rotates
    /// the gradient axis away from `p0 -> p1`.
    LinearGradient {
        p0: VarPoint,
        p1: VarPoint,
        p2: VarPoint,
        stops: Vec<ColorStopRecord>,
        extend: Extend,
    },
    /// A radial gradient between two circles.
    RadialGradient {
        c0: VarPoint,
        r0: VarScalar,
        c1: VarPoint,
        r1: VarScalar,
        stops: Vec<ColorStopRecord>,
        extend: Extend,
    },
    /// A sweep gradient about a center, between two angles in half-turns.
    SweepGradient {
        center: VarPoint,
        start_angle: VarScalar,
        end_angle: VarScalar,
        stops: Vec<ColorStopRecord>,
        extend: Extend,
    },
    /// A raw 2x3 matrix wrapping a child paint.
    Matrix {
        xx: VarScalar,
        yx: VarScalar,
        xy: VarScalar,
        yy: VarScalar,
        dx: VarScalar,
        dy: VarScalar,
        paint: u32,
    },
    /// A translation wrapping a child paint.
    Translate { dx: VarScalar, dy: VarScalar, paint: u32 },
    /// A scale, optionally about a center, wrapping a child paint.
    Scale { sx: VarScalar, sy: VarScalar, center: Option<VarPoint>, paint: u32 },
    /// A rotation by an angle in half-turns, optionally about a center.
    Rotate { angle: VarScalar, center: Option<VarPoint>, paint: u32 },
    /// A skew by two angles in half-turns, optionally about a center.
    Skew { x_angle: VarScalar, y_angle: VarScalar, center: Option<VarPoint>, paint: u32 },
}

/// A version-0 base glyph record: a glyph and its run of layers.
#[derive(Copy, Clone, PartialEq, Eq, Debug)]
pub struct BaseGlyph {
    pub glyph_id: GlyphId,
    pub first_layer: u16,
    pub num_layers: u16,
}

/// A version-0 layer: a glyph outline filled with a palette color.
#[derive(Copy, Clone, PartialEq, Eq, Debug)]
pub struct LayerRecord {
    pub glyph_id: GlyphId,
    pub palette_index: u16,
}

/// A version-1 base glyph record: a glyph and its root paint index.
#[derive(Copy, Clone, PartialEq, Eq, Debug)]
pub struct BaseGlyphPaint {
    pub glyph_id: GlyphId,
    pub paint: u32,
}

/// A clip box for a contiguous range of glyph ids, in 16.16 font units.
#[derive(Copy, Clone, PartialEq, Eq, Debug)]
pub struct ClipRecord {
    pub start_glyph: GlyphId,
    pub end_glyph: GlyphId,
    pub x_min: VarScalar,
    pub y_min: VarScalar,
    pub x_max: VarScalar,
    pub y_max: VarScalar,
}

/// The resolved view of a color table.
#[derive(Clone, PartialEq, Eq, Debug)]
pub struct PaintTable {
    /// Format version: 0 for flat layer lists, 1 for paint graphs.
    pub version: u16,
    /// Version-0 base glyph records, sorted by glyph id.
    pub v0_glyphs: Vec<BaseGlyph>,
    /// Version-0 layer records.
    pub v0_layers: Vec<LayerRecord>,
    /// Version-1 base glyph records, sorted by glyph id.
    pub v1_glyphs: Vec<BaseGlyphPaint>,
    /// Version-1 layer list: paint indices into the arena.
    pub v1_layers: Vec<u32>,
    /// The paint-node arena.
    pub paints: Vec<PaintNode>,
    /// Clip records, sorted by start glyph, with disjoint ranges.
    pub clips: Vec<ClipRecord>,
    /// Per-instance variation deltas, in the scale of the value they adjust.
    pub deltas: Vec<i32>,
}

/// The per-instance delta for a variation index: zero when the value does
/// not vary or the index is out of range.
pub open spec fn delta_spec(t: PaintTable, var_index: Option<u32>) -> int {
    match var_index {
        Option::None => 0,
        Option::Some(i) => if i < t.deltas@.len() {
            t.deltas@[i as int] as int
        } else {
            0
        },
    }
}

/// A variable scalar resolved for the current instance: the base value plus
/// its delta, saturating.
pub open spec fn resolve_spec(t: PaintTable, v: VarScalar) -> int {
    sat_add_spec(v.base as int, delta_spec(t, v.var_index))
}

/// Sortedness of the version-0 base glyph records.
pub open spec fn v0_sorted(t: PaintTable) -> bool {
    forall|i: int, j: int|
        0 <= i < j < t.v0_glyphs@.len() ==> (#[trigger] t.v0_glyphs@[i]).glyph_id < (
        #[trigger] t.v0_glyphs@[j]).glyph_id
}

/// Sortedness of the version-1 base glyph records.
pub open spec fn v1_sorted(t: PaintTable) -> bool {
    forall|i: int, j: int|
        0 <= i < j < t.v1_glyphs@.len() ==> (#[trigger] t.v1_glyphs@[i]).glyph_id < (
        #[trigger] t.v1_glyphs@[j]).glyph_id
}

/// Well-formedness of the table: both base glyph tables are sorted by
/// strictly increasing glyph id.
pub open spec fn table_wf(t: PaintTable) -> bool {
    v0_sorted(t) && v1_sorted(t)
}

impl PaintTable {
    /// An empty version-0 table.
    pub fn new() -> (r: PaintTable)
        ensures
            r.version == 0,
            r.v0_glyphs@.len() == 0,
            r.v0_layers@.len() == 0,
            r.v1_glyphs@.len() == 0,
            r.v1_layers@.len() == 0,
            r.paints@.len() == 0,
            r.clips@.len() == 0,
            r.deltas@.len() == 0,
            table_wf(r),
    {
        PaintTable {
            version: 0,
            v0_glyphs: Vec::new(),
            v0_layers: Vec::new(),
            v1_glyphs: Vec::new(),
            v1_layers: Vec::new(),
            paints: Vec::new(),
            clips: Vec::new(),
            deltas: Vec::new(),
        }
    }

    /// Checks that the base glyph tables are sorted, so that the binary
    /// searches of the evaluator are sound. Callers that build a table by
    /// hand can use this to establish [`table_wf`].
    pub fn check_sorted(&self) -> (r: bool)
        ensures
            r == table_wf(*self),
    {
        let mut i: usize = 1;
        let n0 = self.v0_glyphs.len();
        while i < n0
            invariant
                1 <= i,
                n0 == self.v0_glyphs@.len(),
                forall|a: int, b: int|
                    0 <= a < b < i && b < n0 ==> (#[trigger] self.v0_glyphs@[a]).glyph_id < (
                    #[trigger] self.v0_glyphs@[b]).glyph_id,
            decreases n0 - i,
        {
            if self.v0_glyphs[i - 1].glyph_id >= self.v0_glyphs[i].glyph_id {
                proof {
                    assert(!v0_sorted(*self));
                }
                return false;
            }
            proof {
                assert forall|a: int, b: int|
                    0 <= a < b < i + 1 && b < n0 implies (#[trigger] self.v0_glyphs@[a]).glyph_id
                    < (#[trigger] self.v0_glyphs@[b]).glyph_id by {
                    if b == i {
                        assert(self.v0_glyphs@[a].glyph_id <= self.v0_glyphs@[i - 1].glyph_id);
                    }
                }
            }
            i = i + 1;
        }
        proof {
            if self.v0_glyphs@.len() <= 1 {
                assert(v0_sorted(*self));
            }
        }
        let mut j: usize = 1;
        let n1 = self.v1_glyphs.len();
        while j < n1
            invariant
                1 <= j,
                n1 == self.v1_glyphs@.len(),
                v0_sorted(*self),
                forall|a: int, b: int|
                    0 <= a < b < j && b < n1 ==> (#[trigger] self.v1_glyphs@[a]).glyph_id < (
                    #[trigger] self.v1_glyphs@[b]).glyph_id,
            decreases n1 - j,
        {
            if self.v1_glyphs[j - 1].glyph_id >= self.v1_glyphs[j].glyph_id {
                proof {
                    assert(!v1_sorted(*self));
                }
                return false;
            }
            proof {
                assert forall|a: int, b: int|
                    0 <= a < b < j + 1 && b < n1 implies (#[trigger] self.v1_glyphs@[a]).glyph_id
                    < (#[trigger] self.v1_glyphs@[b]).glyph_id by {
                    if b == j {
                        assert(self.v1_glyphs@[a].glyph_id <= self.v1_glyphs@[j - 1].glyph_id);
                    }
                }
            }
            j = j + 1;
        }
        proof {
            if self.v1_glyphs@.len() <= 1 {
                assert(v1_sorted(*self));
            }
        }
        true
    }

    /// Resolves a variable scalar for this instance: the base value plus
    /// its delta, saturating.
    pub fn resolve(&self, v: VarScalar) -> (r: i32)
        ensures
            r as int == resolve_spec(*self, v),
    {
        match v.var_index {
            Option::None => v.base,
            Option::Some(i) => {
                if (i as usize) < self.deltas.len() {
                    sat_add(v.base, self.deltas[i as usize])
                } else {
                    v.base
                }
            }
        }
    }
}

} // verus!
