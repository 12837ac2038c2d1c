//! Tests for the paint-graph evaluator.

use fello::color::{BoundingBox, Brush, Color, CompositeMode, Extend, Palette};
use fello::colr::{Command, Context, GlyphOutline, MemoryOutlines, Scaler};
use fello::fixed::FixedPoint;
use fello::paint::{
    BaseGlyph, BaseGlyphPaint, ClipRecord, ColorStopRecord, LayerRecord, PaintNode, PaintTable,
    VarPoint, VarScalar,
};
use fello::path::{Path, PathEl};
use fello::transform::Transform;
use fello::Error;

fn fixed(v: i32) -> i32 {
    v << 16
}

fn scalar(v: i32) -> VarScalar {
    VarScalar { base: v, var_index: None }
}

fn var_scalar(v: i32, ix: u32) -> VarScalar {
    VarScalar { base: v, var_index: Some(ix) }
}

fn point(x: i32, y: i32) -> VarPoint {
    VarPoint { x: scalar(x), y: scalar(y) }
}

fn square_outline() -> Vec<PathEl> {
    vec![
        PathEl::MoveTo(FixedPoint { x: 0, y: 0 }),
        PathEl::LineTo(FixedPoint { x: fixed(1), y: 0 }),
        PathEl::LineTo(FixedPoint { x: fixed(1), y: fixed(1) }),
        PathEl::LineTo(FixedPoint { x: 0, y: fixed(1) }),
        PathEl::Close,
    ]
}

fn palette() -> Palette {
    Palette {
        colors: vec![
            Color { r: 255, g: 0, b: 0, a: 255 },
            Color { r: 0, g: 255, b: 0, a: 255 },
            Color { r: 0, g: 0, b: 255, a: 255 },
        ],
        foreground: Color { r: 1, g: 1, b: 1, a: 255 },
    }
}

/// An owned record of one sink call.
#[derive(Clone, Debug, PartialEq)]
enum Call {
    PushTransform(Transform),
    PopTransform,
    PushClip(u16, usize),
    PopClip,
    PushLayer(Option<CompositeMode>),
    PopLayer,
    FillSolid(Color, Option<Transform>),
    FillGradient,
    FillPathSolid(u16, Color),
    FillPathGradient(u16),
    Bounds(BoundingBox),
}

#[derive(Default)]
struct RecordingPen {
    calls: Vec<Call>,
}

impl fello::colr::ColorPen for RecordingPen {
    fn push_transform(&mut self, transform: Transform) {
        self.calls.push(Call::PushTransform(transform));
    }

    fn pop_transform(&mut self) {
        self.calls.push(Call::PopTransform);
    }

    fn push_clip(&mut self, glyph_id: u16, path: &Path<'_>) {
        self.calls.push(Call::PushClip(glyph_id, path.verbs().len()));
    }

    fn pop_clip(&mut self) {
        self.calls.push(Call::PopClip);
    }

    fn push_layer(&mut self, mode: Option<CompositeMode>) {
        self.calls.push(Call::PushLayer(mode));
    }

    fn pop_layer(&mut self) {
        self.calls.push(Call::PopLayer);
    }

    fn fill(&mut self, brush: &Brush<'_>, brush_transform: Option<Transform>) {
        match brush {
            Brush::Solid(c) => self.calls.push(Call::FillSolid(*c, brush_transform)),
            Brush::Gradient(_) => self.calls.push(Call::FillGradient),
        }
    }

    fn fill_path(
        &mut self,
        glyph_id: u16,
        _path: &Path<'_>,
        brush: &Brush<'_>,
        _brush_transform: Option<Transform>,
    ) {
        match brush {
            Brush::Solid(c) => self.calls.push(Call::FillPathSolid(glyph_id, *c)),
            Brush::Gradient(_) => self.calls.push(Call::FillPathGradient(glyph_id)),
        }
    }

    fn bounds(&mut self, bounds: BoundingBox) {
        self.calls.push(Call::Bounds(bounds));
    }
}

/// A version-0 table: base glyph 5 covers layers 2..4, which reference
/// glyphs 10 (palette 0) and 11 (palette 1).
fn v0_table() -> PaintTable {
    let mut t = PaintTable::new();
    t.version = 0;
    t.v0_glyphs = vec![BaseGlyph { glyph_id: 5, first_layer: 2, num_layers: 2 }];
    t.v0_layers = vec![
        LayerRecord { glyph_id: 99, palette_index: 2 },
        LayerRecord { glyph_id: 98, palette_index: 2 },
        LayerRecord { glyph_id: 10, palette_index: 0 },
        LayerRecord { glyph_id: 11, palette_index: 1 },
    ];
    t
}

fn outlines_for(ids: &[u16]) -> MemoryOutlines {
    MemoryOutlines {
        glyphs: ids
            .iter()
            .map(|id| GlyphOutline { glyph_id: *id, els: square_outline() })
            .collect(),
    }
}

#[test]
fn v0_two_layers_in_order() {
    let table = v0_table();
    assert!(table.check_sorted());
    let scaler = Scaler::new(&table);
    let mut ctx = Context::new();
    let mut pen = RecordingPen::default();
    let pal = palette();
    let outlines = outlines_for(&[10, 11]);
    scaler.load(&mut ctx, 5, &pal, &outlines, &mut pen).expect("load");
    let fills: Vec<&Call> = pen
        .calls
        .iter()
        .filter(|c| matches!(c, Call::FillPathSolid(..)))
        .collect();
    assert_eq!(fills.len(), 2);
    assert_eq!(*fills[0], Call::FillPathSolid(10, Color { r: 255, g: 0, b: 0, a: 255 }));
    assert_eq!(*fills[1], Call::FillPathSolid(11, Color { r: 0, g: 255, b: 0, a: 255 }));
}

#[test]
fn v0_missing_glyph_not_found() {
    let table = v0_table();
    let scaler = Scaler::new(&table);
    let mut ctx = Context::new();
    let mut pen = RecordingPen::default();
    let r = scaler.load(&mut ctx, 6, &palette(), &outlines_for(&[10, 11]), &mut pen);
    assert_eq!(r, Err(Error::GlyphNotFound(6)));
    // On an error nothing is replayed to the sink.
    assert!(pen.calls.is_empty());
    // A glyph absent from every base table leaves the context empty.
    assert!(ctx.commands().is_empty());
    assert_eq!(ctx.path_count(), 0);
}

#[test]
fn load_twice_identical_commands() {
    let table = v0_table();
    let scaler = Scaler::new(&table);
    let mut ctx = Context::new();
    let mut pen = RecordingPen::default();
    let pal = palette();
    let outlines = outlines_for(&[10, 11]);
    scaler.load(&mut ctx, 5, &pal, &outlines, &mut pen).expect("load");
    let first: Vec<Command> = ctx.commands().clone();
    let calls_first = pen.calls.clone();
    let mut pen2 = RecordingPen::default();
    scaler.load(&mut ctx, 5, &pal, &outlines, &mut pen2).expect("load again");
    assert_eq!(&first, ctx.commands());
    assert_eq!(calls_first, pen2.calls);
}

/// A version-1 table where base glyph 1 paints two layers, each clipping
/// the same child glyph 7 to a solid fill.
fn v1_shared_glyph_table() -> PaintTable {
    let mut t = PaintTable::new();
    t.version = 1;
    t.paints = vec![
        // 0: root
        PaintNode::Layers { first: 0, count: 2 },
        // 1: left layer
        PaintNode::Glyph { glyph_id: 7, paint: 3 },
        // 2: right layer
        PaintNode::Glyph { glyph_id: 7, paint: 4 },
        // 3: solid red
        PaintNode::Solid { palette_index: 0, alpha: scalar(fixed(1)) },
        // 4: solid green
        PaintNode::Solid { palette_index: 1, alpha: scalar(fixed(1)) },
    ];
    t.v1_layers = vec![1, 2];
    t.v1_glyphs = vec![BaseGlyphPaint { glyph_id: 1, paint: 0 }];
    t
}

#[test]
fn shared_glyph_extracted_once() {
    let table = v1_shared_glyph_table();
    assert!(table.check_sorted());
    let scaler = Scaler::new(&table);
    let mut ctx = Context::new();
    let mut pen = RecordingPen::default();
    scaler
        .load(&mut ctx, 1, &palette(), &outlines_for(&[7]), &mut pen)
        .expect("load");
    // Glyph 7 is referenced twice but its outline is cached after the
    // first extraction.
    assert_eq!(ctx.path_count(), 1);
    let fills = pen
        .calls
        .iter()
        .filter(|c| matches!(c, Call::FillPathSolid(..)))
        .count();
    assert_eq!(fills, 2);
}

#[test]
fn glyph_brush_child_collapses_to_fill_path() {
    // A Glyph node whose child resolves to a brush emits one FillPath and
    // no clip commands.
    let table = v1_shared_glyph_table();
    let scaler = Scaler::new(&table);
    let mut ctx = Context::new();
    let mut pen = RecordingPen::default();
    scaler
        .load(&mut ctx, 1, &palette(), &outlines_for(&[7]), &mut pen)
        .expect("load");
    assert!(pen.calls.iter().all(|c| !matches!(c, Call::PushClip(..))));
}

/// A cyclic graph: the base paint of glyph 2 refers back to glyph 2.
fn cyclic_table() -> PaintTable {
    let mut t = PaintTable::new();
    t.version = 1;
    t.paints = vec![
        // 0: root of glyph 2: layers [0, 1)
        PaintNode::Layers { first: 0, count: 1 },
        // 1: a reference back to glyph 2's root
        PaintNode::ColorGlyph { glyph_id: 2 },
    ];
    t.v1_layers = vec![1];
    t.v1_glyphs = vec![BaseGlyphPaint { glyph_id: 2, paint: 0 }];
    t
}

#[test]
fn cycle_terminates_without_commands() {
    let table = cyclic_table();
    let scaler = Scaler::new(&table);
    let mut ctx = Context::new();
    let mut pen = RecordingPen::default();
    scaler
        .load(&mut ctx, 2, &palette(), &outlines_for(&[]), &mut pen)
        .expect("cycle must not error");
    // The cyclic branch is silently elided: no drawing commands at all.
    assert_eq!(ctx.commands().len(), 0);
}

/// A graph with a composite of two solids under a translate.
fn composite_table() -> PaintTable {
    let mut t = PaintTable::new();
    t.version = 1;
    t.paints = vec![
        // 0: translate wrapping the composite
        PaintNode::Translate { dx: scalar(fixed(3)), dy: scalar(fixed(4)), paint: 1 },
        // 1: composite
        PaintNode::Composite { backdrop: 2, mode: CompositeMode::Multiply, source: 3 },
        // 2: backdrop solid
        PaintNode::Solid { palette_index: 0, alpha: scalar(fixed(1)) },
        // 3: source solid
        PaintNode::Solid { palette_index: 1, alpha: scalar(fixed(1)) },
    ];
    t.v1_glyphs = vec![BaseGlyphPaint { glyph_id: 3, paint: 0 }];
    t
}

#[test]
fn composite_order_and_layers() {
    let table = composite_table();
    let scaler = Scaler::new(&table);
    let mut ctx = Context::new();
    let mut pen = RecordingPen::default();
    scaler
        .load(&mut ctx, 3, &palette(), &outlines_for(&[]), &mut pen)
        .expect("load");
    let calls: Vec<Call> = pen
        .calls
        .iter()
        .filter(|c| !matches!(c, Call::Bounds(_)))
        .cloned()
        .collect();
    assert_eq!(
        calls,
        vec![
            Call::PushTransform(Transform::translate(fixed(3), fixed(4))),
            Call::PushLayer(None),
            Call::FillSolid(Color { r: 255, g: 0, b: 0, a: 255 }, None),
            Call::PushLayer(Some(CompositeMode::Multiply)),
            Call::FillSolid(Color { r: 0, g: 255, b: 0, a: 255 }, None),
            Call::PopLayer,
            Call::PopLayer,
            Call::PopTransform,
        ]
    );
}

#[test]
fn commands_balanced_per_kind() {
    let table = composite_table();
    let scaler = Scaler::new(&table);
    let mut ctx = Context::new();
    let mut pen = RecordingPen::default();
    scaler
        .load(&mut ctx, 3, &palette(), &outlines_for(&[]), &mut pen)
        .expect("load");
    let mut tr: i32 = 0;
    let mut clip: i32 = 0;
    let mut layer: i32 = 0;
    for c in ctx.commands() {
        match c {
            Command::PushTransform(_) => tr += 1,
            Command::PopTransform => tr -= 1,
            Command::PushClip { .. } => clip += 1,
            Command::PopClip => clip -= 1,
            Command::PushLayer(_) => layer += 1,
            Command::PopLayer => layer -= 1,
            _ => {}
        }
        assert!(tr >= 0 && clip >= 0 && layer >= 0, "balance dipped below zero");
    }
    assert_eq!((tr, clip, layer), (0, 0, 0));
}

#[test]
fn transform_chain_composes() {
    // Translate(3, 4) then Scale(2, 2) over a solid: one PushTransform
    // with the composed matrix.
    let mut t = PaintTable::new();
    t.version = 1;
    t.paints = vec![
        PaintNode::Translate { dx: scalar(fixed(3)), dy: scalar(fixed(4)), paint: 1 },
        PaintNode::Scale {
            sx: scalar(fixed(2)),
            sy: scalar(fixed(2)),
            center: None,
            paint: 2,
        },
        PaintNode::Layers { first: 0, count: 1 },
        PaintNode::Solid { palette_index: 0, alpha: scalar(fixed(1)) },
    ];
    t.v1_layers = vec![3];
    t.v1_glyphs = vec![BaseGlyphPaint { glyph_id: 4, paint: 0 }];
    let scaler = Scaler::new(&t);
    let mut ctx = Context::new();
    let mut pen = RecordingPen::default();
    scaler
        .load(&mut ctx, 4, &palette(), &outlines_for(&[]), &mut pen)
        .expect("load");
    let expected =
        Transform::translate(fixed(3), fixed(4)).mul(&Transform::scale(fixed(2), fixed(2)));
    assert!(pen.calls.contains(&Call::PushTransform(expected)));
}

#[test]
fn linear_gradient_axis_unrotated() {
    // p0 = (0,0), p1 = (1,0), p2 = (0,1): the axis stays (0,0) -> (1,0).
    let stops = vec![
        ColorStopRecord { offset: scalar(0), palette_index: 0, alpha: scalar(fixed(1)) },
        ColorStopRecord {
            offset: scalar(fixed(1)),
            palette_index: 1,
            alpha: scalar(fixed(1)),
        },
    ];
    let mut t = PaintTable::new();
    t.version = 1;
    t.paints = vec![PaintNode::LinearGradient {
        p0: point(0, 0),
        p1: point(fixed(1), 0),
        p2: point(0, fixed(1)),
        stops,
        extend: Extend::Pad,
    }];
    t.v1_glyphs = vec![BaseGlyphPaint { glyph_id: 8, paint: 0 }];
    let scaler = Scaler::new(&t);
    let mut ctx = Context::new();

    struct GradientPen {
        start: Option<FixedPoint>,
        end: Option<FixedPoint>,
        stops: Vec<fello::color::ColorStop>,
    }
    impl fello::colr::ColorPen for GradientPen {
        fn push_transform(&mut self, _t: Transform) {}
        fn pop_transform(&mut self) {}
        fn push_clip(&mut self, _g: u16, _p: &Path<'_>) {}
        fn pop_clip(&mut self) {}
        fn push_layer(&mut self, _m: Option<CompositeMode>) {}
        fn pop_layer(&mut self) {}
        fn fill(&mut self, brush: &Brush<'_>, _tr: Option<Transform>) {
            if let Brush::Gradient(g) = brush {
                if let fello::color::GradientKind::Linear { start, end } = g.kind {
                    self.start = Some(start);
                    self.end = Some(end);
                }
                self.stops = g.stops.to_vec();
            }
        }
        fn fill_path(
            &mut self,
            _g: u16,
            _p: &Path<'_>,
            _b: &Brush<'_>,
            _t: Option<Transform>,
        ) {
        }
        fn bounds(&mut self, _b: BoundingBox) {}
    }

    let mut pen = GradientPen { start: None, end: None, stops: Vec::new() };
    scaler
        .load(&mut ctx, 8, &palette(), &outlines_for(&[]), &mut pen)
        .expect("load");
    assert_eq!(pen.start, Some(FixedPoint { x: 0, y: 0 }));
    assert_eq!(pen.end, Some(FixedPoint { x: fixed(1), y: 0 }));
    assert_eq!(pen.stops.len(), 2);
    assert_eq!(pen.stops[0].offset, 0);
    assert_eq!(pen.stops[1].offset, fixed(1));
    assert_eq!(pen.stops[0].color, Color { r: 255, g: 0, b: 0, a: 255 });
}

#[test]
fn alpha_and_deltas_applied() {
    // A solid whose alpha is 0.5 plus a variation delta of +0.25.
    let mut t = PaintTable::new();
    t.version = 1;
    t.paints = vec![PaintNode::Solid {
        palette_index: 0,
        alpha: var_scalar(0x8000, 0),
    }];
    t.v1_glyphs = vec![BaseGlyphPaint { glyph_id: 9, paint: 0 }];
    t.deltas = vec![0x4000];
    let scaler = Scaler::new(&t);
    let mut ctx = Context::new();
    let mut pen = RecordingPen::default();
    scaler
        .load(&mut ctx, 9, &palette(), &outlines_for(&[]), &mut pen)
        .expect("load");
    // 255 * 0.75 truncates to 191.
    assert!(pen
        .calls
        .contains(&Call::FillSolid(Color { r: 255, g: 0, b: 0, a: 191 }, None)));
}

#[test]
fn depth_limit_cuts_self_looping_transform() {
    let mut t = PaintTable::new();
    t.version = 1;
    t.paints = vec![PaintNode::Translate { dx: scalar(1), dy: scalar(1), paint: 0 }];
    t.v1_glyphs = vec![BaseGlyphPaint { glyph_id: 1, paint: 0 }];
    let scaler = Scaler::new(&t);
    let mut ctx = Context::new();
    let mut pen = RecordingPen::default();
    let r = scaler.load(&mut ctx, 1, &palette(), &outlines_for(&[]), &mut pen);
    assert_eq!(r, Err(Error::DepthLimitExceeded));
}

#[test]
fn bad_layer_range_is_read_error() {
    let mut t = PaintTable::new();
    t.version = 1;
    t.paints = vec![PaintNode::Layers { first: 0, count: 5 }];
    t.v1_layers = vec![];
    t.v1_glyphs = vec![BaseGlyphPaint { glyph_id: 1, paint: 0 }];
    let scaler = Scaler::new(&t);
    let mut ctx = Context::new();
    let mut pen = RecordingPen::default();
    let r = scaler.load(&mut ctx, 1, &palette(), &outlines_for(&[]), &mut pen);
    assert_eq!(r, Err(Error::ReadError));
}

#[test]
fn v1_falls_back_to_v0() {
    // Version 1 table without a v1 record for the glyph: the v0 layer list
    // is used instead.
    let mut t = v0_table();
    t.version = 1;
    t.v1_glyphs = vec![BaseGlyphPaint { glyph_id: 77, paint: 0 }];
    t.paints = vec![PaintNode::Solid { palette_index: 0, alpha: scalar(fixed(1)) }];
    let scaler = Scaler::new(&t);
    let mut ctx = Context::new();
    let mut pen = RecordingPen::default();
    scaler
        .load(&mut ctx, 5, &palette(), &outlines_for(&[10, 11]), &mut pen)
        .expect("fallback");
    let fills = pen
        .calls
        .iter()
        .filter(|c| matches!(c, Call::FillPathSolid(..)))
        .count();
    assert_eq!(fills, 2);
}

#[test]
fn clip_box_reported() {
    let mut t = v0_table();
    t.clips = vec![ClipRecord {
        start_glyph: 0,
        end_glyph: 20,
        x_min: scalar(-fixed(2)),
        y_min: scalar(-fixed(2)),
        x_max: scalar(fixed(2)),
        y_max: scalar(fixed(2)),
    }];
    let scaler = Scaler::new(&t);
    let mut ctx = Context::new();
    let mut pen = RecordingPen::default();
    scaler
        .load(&mut ctx, 5, &palette(), &outlines_for(&[10, 11]), &mut pen)
        .expect("load");
    assert_eq!(
        pen.calls[0],
        Call::Bounds(BoundingBox {
            x_min: -fixed(2),
            y_min: -fixed(2),
            x_max: fixed(2),
            y_max: fixed(2),
        })
    );
}

#[test]
fn default_clip_box_reported() {
    let t = v0_table();
    let scaler = Scaler::new(&t);
    let mut ctx = Context::new();
    let mut pen = RecordingPen::default();
    scaler
        .load(&mut ctx, 5, &palette(), &outlines_for(&[10, 11]), &mut pen)
        .expect("load");
    assert_eq!(
        pen.calls[0],
        Call::Bounds(BoundingBox {
            x_min: -0x1000_0000,
            y_min: -0x1000_0000,
            x_max: 0x1000_0000,
            y_max: 0x1000_0000,
        })
    );
}

#[test]
fn outline_error_propagates() {
    // The layer's glyph has no outline: the source's error aborts the load.
    let table = v0_table();
    let scaler = Scaler::new(&table);
    let mut ctx = Context::new();
    let mut pen = RecordingPen::default();
    let r = scaler.load(&mut ctx, 5, &palette(), &outlines_for(&[10]), &mut pen);
    assert_eq!(r, Err(Error::GlyphNotFound(11)));
    assert!(pen.calls.is_empty());
}

#[test]
fn path_replay_matches_outline() {
    struct PenRec {
        ops: Vec<(char, Vec<i32>)>,
    }
    impl fello::path::Pen for PenRec {
        fn move_to(&mut self, x: i32, y: i32) {
            self.ops.push(('m', vec![x, y]));
        }
        fn line_to(&mut self, x: i32, y: i32) {
            self.ops.push(('l', vec![x, y]));
        }
        fn quad_to(&mut self, cx0: i32, cy0: i32, x: i32, y: i32) {
            self.ops.push(('q', vec![cx0, cy0, x, y]));
        }
        fn curve_to(&mut self, cx0: i32, cy0: i32, cx1: i32, cy1: i32, x: i32, y: i32) {
            self.ops.push(('c', vec![cx0, cy0, cx1, cy1, x, y]));
        }
        fn close(&mut self) {
            self.ops.push(('z', vec![]));
        }
    }

    struct ClipPen {
        ops: Vec<(char, Vec<i32>)>,
    }
    impl fello::colr::ColorPen for ClipPen {
        fn push_transform(&mut self, _t: Transform) {}
        fn pop_transform(&mut self) {}
        fn push_clip(&mut self, _g: u16, _p: &Path<'_>) {}
        fn pop_clip(&mut self) {}
        fn push_layer(&mut self, _m: Option<CompositeMode>) {}
        fn pop_layer(&mut self) {}
        fn fill(&mut self, _b: &Brush<'_>, _t: Option<Transform>) {}
        fn fill_path(
            &mut self,
            _g: u16,
            p: &Path<'_>,
            _b: &Brush<'_>,
            _t: Option<Transform>,
        ) {
            let mut rec = PenRec { ops: Vec::new() };
            p.evaluate(&mut rec);
            self.ops = rec.ops;
        }
        fn bounds(&mut self, _b: BoundingBox) {}
    }

    let table = v0_table();
    let scaler = Scaler::new(&table);
    let mut ctx = Context::new();
    let mut pen = ClipPen { ops: Vec::new() };
    scaler
        .load(&mut ctx, 5, &palette(), &outlines_for(&[10, 11]), &mut pen)
        .expect("load");
    assert_eq!(
        pen.ops,
        vec![
            ('m', vec![0, 0]),
            ('l', vec![fixed(1), 0]),
            ('l', vec![fixed(1), fixed(1)]),
            ('l', vec![0, fixed(1)]),
            ('z', vec![]),
        ]
    );
}

#[test]
fn nested_clip_graph_balanced() {
    // A Glyph node whose child is structural (layers) takes the clip path.
    let mut t = PaintTable::new();
    t.version = 1;
    t.paints = vec![
        // 0: root glyph clip
        PaintNode::Glyph { glyph_id: 7, paint: 1 },
        // 1: layers
        PaintNode::Layers { first: 0, count: 1 },
        // 2: solid
        PaintNode::Solid { palette_index: 2, alpha: scalar(fixed(1)) },
    ];
    t.v1_layers = vec![2];
    t.v1_glyphs = vec![BaseGlyphPaint { glyph_id: 1, paint: 0 }];
    let scaler = Scaler::new(&t);
    let mut ctx = Context::new();
    let mut pen = RecordingPen::default();
    scaler
        .load(&mut ctx, 1, &palette(), &outlines_for(&[7]), &mut pen)
        .expect("load");
    let calls: Vec<Call> = pen
        .calls
        .iter()
        .filter(|c| !matches!(c, Call::Bounds(_)))
        .cloned()
        .collect();
    assert_eq!(
        calls,
        vec![
            Call::PushClip(7, 5),
            Call::FillSolid(Color { r: 0, g: 0, b: 255, a: 255 }, None),
            Call::PopClip,
        ]
    );
}

#[test]
fn radial_and_sweep_geometry_resolved() {
    let stops = vec![ColorStopRecord {
        offset: scalar(0),
        palette_index: 0,
        alpha: scalar(fixed(1)),
    }];
    let mut t = PaintTable::new();
    t.version = 1;
    t.paints = vec![
        PaintNode::Layers { first: 0, count: 2 },
        PaintNode::RadialGradient {
            c0: point(fixed(1), fixed(2)),
            r0: scalar(fixed(3)),
            c1: point(fixed(4), fixed(5)),
            r1: scalar(fixed(6)),
            stops: stops.clone(),
            extend: Extend::Repeat,
        },
        PaintNode::SweepGradient {
            center: point(fixed(7), fixed(8)),
            start_angle: scalar(0x4000),
            end_angle: scalar(0x8000),
            stops,
            extend: Extend::Reflect,
        },
    ];
    t.v1_layers = vec![1, 2];
    t.v1_glyphs = vec![BaseGlyphPaint { glyph_id: 6, paint: 0 }];

    struct KindPen {
        kinds: Vec<fello::color::GradientKind>,
        extends: Vec<Extend>,
    }
    impl fello::colr::ColorPen for KindPen {
        fn push_transform(&mut self, _t: Transform) {}
        fn pop_transform(&mut self) {}
        fn push_clip(&mut self, _g: u16, _p: &Path<'_>) {}
        fn pop_clip(&mut self) {}
        fn push_layer(&mut self, _m: Option<CompositeMode>) {}
        fn pop_layer(&mut self) {}
        fn fill(&mut self, brush: &Brush<'_>, _tr: Option<Transform>) {
            if let Brush::Gradient(g) = brush {
                self.kinds.push(g.kind);
                self.extends.push(g.extend);
            }
        }
        fn fill_path(&mut self, _g: u16, _p: &Path<'_>, _b: &Brush<'_>, _t: Option<Transform>) {}
        fn bounds(&mut self, _b: BoundingBox) {}
    }

    let scaler = Scaler::new(&t);
    let mut ctx = Context::new();
    let mut pen = KindPen { kinds: Vec::new(), extends: Vec::new() };
    scaler
        .load(&mut ctx, 6, &palette(), &outlines_for(&[]), &mut pen)
        .expect("load");
    assert_eq!(
        pen.kinds,
        vec![
            fello::color::GradientKind::Radial {
                start_center: FixedPoint { x: fixed(1), y: fixed(2) },
                start_radius: fixed(3),
                end_center: FixedPoint { x: fixed(4), y: fixed(5) },
                end_radius: fixed(6),
            },
            fello::color::GradientKind::Sweep {
                center: FixedPoint { x: fixed(7), y: fixed(8) },
                start_angle: 0x4000,
                end_angle: 0x8000,
            },
        ]
    );
    assert_eq!(pen.extends, vec![Extend::Repeat, Extend::Reflect]);
}

#[test]
fn matrix_node_taken_verbatim() {
    let mut t = PaintTable::new();
    t.version = 1;
    t.paints = vec![
        PaintNode::Matrix {
            xx: scalar(fixed(1)),
            yx: scalar(7),
            xy: scalar(9),
            yy: scalar(fixed(1)),
            dx: scalar(fixed(5)),
            dy: scalar(-fixed(5)),
            paint: 1,
        },
        PaintNode::Layers { first: 0, count: 1 },
        PaintNode::Solid { palette_index: 0, alpha: scalar(fixed(1)) },
    ];
    t.v1_layers = vec![2];
    t.v1_glyphs = vec![BaseGlyphPaint { glyph_id: 2, paint: 0 }];
    let scaler = Scaler::new(&t);
    let mut ctx = Context::new();
    let mut pen = RecordingPen::default();
    scaler
        .load(&mut ctx, 2, &palette(), &outlines_for(&[]), &mut pen)
        .expect("load");
    let expected = Transform {
        xx: fixed(1),
        yx: 7,
        xy: 9,
        yy: fixed(1),
        dx: fixed(5),
        dy: -fixed(5),
    };
    assert!(pen.calls.contains(&Call::PushTransform(expected)));
}

#[test]
fn rotate_about_center_quarter_turn() {
    // A quarter turn about (1, 0) maps the origin to (1, -1).
    let mut t = PaintTable::new();
    t.version = 1;
    t.paints = vec![
        PaintNode::Rotate {
            angle: scalar(0x8000),
            center: Some(point(fixed(1), 0)),
            paint: 1,
        },
        PaintNode::Layers { first: 0, count: 1 },
        PaintNode::Solid { palette_index: 0, alpha: scalar(fixed(1)) },
    ];
    t.v1_layers = vec![2];
    t.v1_glyphs = vec![BaseGlyphPaint { glyph_id: 2, paint: 0 }];
    let scaler = Scaler::new(&t);
    let mut ctx = Context::new();
    let mut pen = RecordingPen::default();
    scaler
        .load(&mut ctx, 2, &palette(), &outlines_for(&[]), &mut pen)
        .expect("load");
    let expected = Transform::rotate(0x8000).around_center(fixed(1), 0);
    assert!(pen.calls.contains(&Call::PushTransform(expected)));
    assert_eq!(expected.dx, fixed(1));
    assert_eq!(expected.dy, -fixed(1));
}

#[test]
fn unsorted_table_detected() {
    let mut t = PaintTable::new();
    t.v0_glyphs = vec![
        BaseGlyph { glyph_id: 9, first_layer: 0, num_layers: 0 },
        BaseGlyph { glyph_id: 3, first_layer: 0, num_layers: 0 },
    ];
    assert!(!t.check_sorted());
}
