//! Colors, gradients, and brushes for color outlines.

use vstd::prelude::*;
use crate::fixed::FixedPoint;

verus! {

/// 32-bit RGBA color value.
#[derive(Copy, Clone, PartialEq, Eq, Structural, Hash, Debug)]
pub struct Color {
    pub r: u8,
    pub g: u8,
    pub b: u8,
    pub a: u8,
}

impl Default for Color {
    /// The default color is transparent black.
    fn default() -> (r: Color)
        ensures
            r == (Color { r: 0, g: 0, b: 0, a: 0 }),
    {
        Color { r: 0, g: 0, b: 0, a: 0 }
    }
}

/// The color with its alpha channel scaled by a 16.16 factor. The factor is
/// clamped to `[0, 1]` and the scaled channel truncates.
pub open spec fn apply_alpha_spec(c: Color, alpha: int) -> Color {
    let al = if alpha < 0 {
        0int
    } else if alpha > 0x1_0000 {
        0x1_0000int
    } else {
        alpha
    };
    Color { r: c.r, g: c.g, b: c.b, a: ((c.a * al) / 0x1_0000) as u8 }
}

/// Scales the alpha channel of a color by a 16.16 fixed-point factor.
pub fn apply_alpha(c: Color, alpha: i32) -> (r: Color)
    ensures
        r == apply_alpha_spec(c, alpha as int),
{
    let al: u32 = if alpha < 0 {
        0
    } else if alpha > 0x1_0000 {
        0x1_0000
    } else {
        alpha as u32
    };
    proof {
        assert((c.a as int) * (al as int) <= 255 * 0x1_0000) by (nonlinear_arith)
            requires
                0 <= c.a as int <= 255,
                0 <= al as int <= 0x1_0000,
        ;
        vstd::arithmetic::div_mod::lemma_fundamental_div_mod(
            (c.a as int) * (al as int),
            0x1_0000,
        );
    }
    let scaled = ((c.a as u32) * al) / 0x1_0000;
    Color { r: c.r, g: c.g, b: c.b, a: scaled as u8 }
}

/// Offset and color of a transition point in a gradient. The offset is a
/// 16.16 fraction of the gradient's span.
#[derive(Copy, Clone, PartialEq, Eq, Structural, Debug)]
pub struct ColorStop {
    pub offset: i32,
    pub color: Color,
}

/// Gradient behavior beyond the defined stop range.
#[derive(Copy, Clone, PartialEq, Eq, Structural, Debug)]
pub enum Extend {
    Pad,
    Repeat,
    Reflect,
}

/// Porter-Duff style operator applied when layering two sub-paints.
#[derive(Copy, Clone, PartialEq, Eq, Structural, Debug)]
pub enum CompositeMode {
    Clear,
    Src,
    Dest,
    SrcOver,
    DestOver,
    SrcIn,
    DestIn,
    SrcOut,
    DestOut,
    SrcAtop,
    DestAtop,
    Xor,
    Plus,
    Screen,
    Overlay,
    Darken,
    Lighten,
    ColorDodge,
    ColorBurn,
    HardLight,
    SoftLight,
    Difference,
    Exclusion,
    Multiply,
    HslHue,
    HslSaturation,
    HslColor,
    HslLuminosity,
}

/// Properties for the supported gradient types, with 16.16 geometry.
#[derive(Copy, Clone, PartialEq, Eq, Structural, Debug)]
pub enum GradientKind {
    /// Transitions between colors along the line from `start` to `end`.
    Linear { start: FixedPoint, end: FixedPoint },
    /// Transitions between colors radiating between two circles.
    Radial {
        start_center: FixedPoint,
        start_radius: i32,
        end_center: FixedPoint,
        end_radius: i32,
    },
    /// Transitions between colors rotating about a center point; angles are
    /// in 16.16 half-turns, counter-clockwise of the x-axis.
    Sweep { center: FixedPoint, start_angle: i32, end_angle: i32 },
}

/// Definition of a gradient that transitions between two or more colors.
#[derive(Copy, Clone, Debug)]
pub struct Gradient<'a> {
    /// Kind and properties of the gradient.
    pub kind: GradientKind,
    /// Extend mode.
    pub extend: Extend,
    /// Color stop collection.
    pub stops: &'a [ColorStop],
}

/// A resolved paint: either a solid color or a gradient.
#[derive(Copy, Clone, Debug)]
pub enum Brush<'a> {
    Solid(Color),
    Gradient(Gradient<'a>),
}

/// A conservative axis-aligned box around a glyph, in 16.16 font units.
#[derive(Copy, Clone, PartialEq, Eq, Structural, Debug)]
pub struct BoundingBox {
    pub x_min: i32,
    pub y_min: i32,
    pub x_max: i32,
    pub y_max: i32,
}

/// Resolves palette indices to concrete colors. The sentinel index `0xFFFF`
/// conventionally means "current foreground color" and is interpreted by the
/// implementation, not by the evaluator.
pub trait PaletteLookup {
    /// The color this lookup returns for an index.
    spec fn color_spec(&self, index: u16) -> Color;

    /// Returns the color for a palette index.
    fn color(&self, index: u16) -> (c: Color)
        ensures
            c == self.color_spec(index),
    ;
}

/// A palette backed by a list of colors; out-of-range indices and the
/// foreground sentinel resolve to a fixed foreground color.
pub struct Palette {
    pub colors: Vec<Color>,
    pub foreground: Color,
}

impl PaletteLookup for Palette {
    open spec fn color_spec(&self, index: u16) -> Color {
        if index != 0xffff && index < self.colors@.len() {
            self.colors@[index as int]
        } else {
            self.foreground
        }
    }

    fn color(&self, index: u16) -> (c: Color) {
        if index != 0xffff && (index as usize) < self.colors.len() {
            self.colors[index as usize]
        } else {
            self.foreground
        }
    }
}

} // verus!
