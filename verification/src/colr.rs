//! The paint-graph evaluator for color outlines.
//!
//! [`Scaler::load`] walks the color table's paint graph for one glyph and
//! fills a [`Context`] with an ordered command list, then replays it against
//! a [`ColorPen`]. The whole evaluation is specified functionally: the
//! command list an evaluation produces is exactly the one computed by
//! [`load_spec`], a pure function of the table, the glyph, and the palette
//! and outline sources. Cyclic paint graphs are cut by a visited set scoped
//! to the current path from the root, and a depth ceiling guards the
//! recursion against pathological but acyclic graphs.

use vstd::prelude::*;
use crate::color::Brush;
use crate::color::BoundingBox;
use crate::color::Color;
use crate::color::ColorStop;
use crate::color::CompositeMode;
use crate::color::Extend;
use crate::color::Gradient;
use crate::color::GradientKind;
use crate::color::PaletteLookup;
use crate::color::apply_alpha;
use crate::color::apply_alpha_spec;
use crate::fixed::FixedPoint;
use crate::fixed::div_floor_i128;
use crate::fixed::sat_add;
use crate::fixed::sat_add_spec;
use crate::fixed::sat_neg;
use crate::fixed::sat_neg_spec;
use crate::fixed::sat_sub;
use crate::fixed::sat_sub_spec;
use crate::fixed::sat32_spec;
use crate::paint::BaseGlyph;
use crate::paint::BaseGlyphPaint;
use crate::paint::ClipRecord;
use crate::paint::ColorStopRecord;
use crate::paint::GlyphId;
use crate::paint::PaintNode;
use crate::paint::PaintTable;
use crate::paint::VarPoint;
use crate::paint::VarScalar;
use crate::paint::resolve_spec;
use crate::paint::table_wf;
use crate::path::Path;
use crate::path::PathBuilder;
use crate::path::PathEl;
use crate::path::Verb;
use crate::path::els_points;
use crate::path::els_verbs;
use crate::path::el_verb;
use crate::path::el_points;
use crate::path::total_points;
use crate::path::verbs_points_wf;
use crate::transform::Transform;
use crate::Error;

verus! {

/// The depth ceiling for paint-graph recursion: a defensive bound against
/// pathological but acyclic graphs.
pub const MAX_DEPTH: u32 = 64;

/// A cached path: a glyph and its verb and point ranges in the context's
/// shared buffers.
#[derive(Copy, Clone, PartialEq, Eq, Structural, Debug)]
pub struct PathData {
    pub glyph_id: GlyphId,
    pub verb_start: usize,
    pub verb_end: usize,
    pub point_start: usize,
    pub point_end: usize,
}

/// A recorded gradient: its kind and geometry, with a range into the
/// context's shared stop list.
#[derive(Copy, Clone, PartialEq, Eq, Structural, Debug)]
pub struct GradientData {
    pub kind: GradientKind,
    pub extend: Extend,
    pub stop_start: usize,
    pub stop_end: usize,
}

/// A recorded brush.
#[derive(Copy, Clone, PartialEq, Eq, Structural, Debug)]
pub enum BrushData {
    Solid(Color),
    Gradient(GradientData),
}

/// A recorded brush with the transform it is painted under.
#[derive(Copy, Clone, PartialEq, Eq, Structural, Debug)]
pub struct BrushEntry {
    pub brush: BrushData,
    pub transform: Option<Transform>,
}

/// One drawing command of the replayable stream. Push and pop commands come
/// in balanced, properly nested pairs per kind.
#[derive(Copy, Clone, PartialEq, Eq, Structural, Debug)]
pub enum Command {
    PushTransform(Transform),
    PopTransform,
    PushClip { glyph_id: GlyphId, path: usize },
    PopClip,
    PushLayer(Option<CompositeMode>),
    PopLayer,
    Fill(usize),
    FillPath { glyph_id: GlyphId, path: usize, brush: usize },
}

/// The value of an evaluation context: its arenas and command list.
pub struct CtxSnap {
    pub brushes: Seq<BrushEntry>,
    pub stops: Seq<ColorStop>,
    pub paths: Seq<PathData>,
    pub verbs: Seq<Verb>,
    pub points: Seq<FixedPoint>,
    pub commands: Seq<Command>,
}

/// The empty context value.
pub open spec fn empty_snap() -> CtxSnap {
    CtxSnap {
        brushes: Seq::empty(),
        stops: Seq::empty(),
        paths: Seq::empty(),
        verbs: Seq::empty(),
        points: Seq::empty(),
        commands: Seq::empty(),
    }
}

/// Well-formedness of a context value: every recorded range lies inside its
/// buffer, each path's points match its verbs, each gradient's stop range is
/// valid, every command's index refers to a recorded brush or path, and no
/// two cached paths share a glyph.
pub open spec fn ctx_wf(m: CtxSnap) -> bool {
    &&& forall|i: int|
        0 <= i < m.paths.len() ==> path_data_wf(m, #[trigger] m.paths[i])
    &&& forall|i: int, j: int|
        0 <= i < j < m.paths.len() ==> (#[trigger] m.paths[i]).glyph_id != (
        #[trigger] m.paths[j]).glyph_id
    &&& forall|i: int|
        0 <= i < m.brushes.len() ==> brush_data_wf(m, (#[trigger] m.brushes[i]).brush)
    &&& forall|i: int|
        0 <= i < m.commands.len() ==> command_wf(m, #[trigger] m.commands[i])
}

/// Validity of one cached path's ranges.
pub open spec fn path_data_wf(m: CtxSnap, p: PathData) -> bool {
    &&& p.verb_start <= p.verb_end <= m.verbs.len()
    &&& p.point_start <= p.point_end <= m.points.len()
    &&& verbs_points_wf(
        m.verbs.subrange(p.verb_start as int, p.verb_end as int),
        m.points.subrange(p.point_start as int, p.point_end as int),
    )
}

/// Validity of one recorded brush's stop range.
pub open spec fn brush_data_wf(m: CtxSnap, b: BrushData) -> bool {
    match b {
        BrushData::Solid(_) => true,
        BrushData::Gradient(g) => g.stop_start <= g.stop_end <= m.stops.len(),
    }
}

/// Validity of the indices of one command.
pub open spec fn command_wf(m: CtxSnap, c: Command) -> bool {
    match c {
        Command::PushClip { path, .. } => path < m.paths.len(),
        Command::Fill(brush) => brush < m.brushes.len(),
        Command::FillPath { path, brush, .. } => path < m.paths.len() && brush < m.brushes.len(),
        _ => true,
    }
}

/// The first cached path for a glyph at or after position `i`.
pub open spec fn find_path_from(paths: Seq<PathData>, g: GlyphId, i: int) -> Option<int>
    decreases paths.len() - i,
{
    if i < 0 || i >= paths.len() {
        Option::None
    } else if paths[i].glyph_id == g {
        Option::Some(i)
    } else {
        find_path_from(paths, g, i + 1)
    }
}

/// Receives the ordered drawing commands of a color outline.
pub trait ColorPen {
    fn push_transform(&mut self, transform: Transform);

    fn pop_transform(&mut self);

    fn push_clip(&mut self, glyph_id: GlyphId, path: &Path<'_>);

    fn pop_clip(&mut self);

    fn push_layer(&mut self, mode: Option<CompositeMode>);

    fn pop_layer(&mut self);

    fn fill(&mut self, brush: &Brush<'_>, brush_transform: Option<Transform>);

    fn fill_path(
        &mut self,
        glyph_id: GlyphId,
        path: &Path<'_>,
        brush: &Brush<'_>,
        brush_transform: Option<Transform>,
    );

    fn bounds(&mut self, bounds: BoundingBox);
}

/// Supplies glyph outlines to the evaluator. An implementation appends the
/// outline of the requested glyph to the builder; the outline it supplies
/// for a glyph is fixed by [`OutlineSource::outline_spec`], so an evaluation
/// is a pure function of its inputs.
pub trait OutlineSource {
    /// The outline this source supplies for a glyph, or the error it fails
    /// with.
    spec fn outline_spec(&self, glyph_id: GlyphId) -> Result<Seq<PathEl>, Error>;

    /// Appends the outline of the glyph to the builder.
    fn outline(&self, glyph_id: GlyphId, builder: &mut PathBuilder) -> (r: Result<(), Error>)
        ensures
            match self.outline_spec(glyph_id) {
                Ok(els) => r == Ok::<(), Error>(()) && final(builder)@ == old(builder)@ + els,
                Err(e) => r == Err::<(), Error>(e) && final(builder)@ == old(builder)@,
            },
    ;
}

/// One glyph's outline held in memory.
pub struct GlyphOutline {
    pub glyph_id: GlyphId,
    pub els: Vec<PathEl>,
}

/// The first outline for a glyph at or after position `i`.
pub open spec fn find_outline_from(s: Seq<GlyphOutline>, g: GlyphId, i: int) -> Option<int>
    decreases s.len() - i,
{
    if i < 0 || i >= s.len() {
        Option::None
    } else if s[i].glyph_id == g {
        Option::Some(i)
    } else {
        find_outline_from(s, g, i + 1)
    }
}

/// An outline source backed by a list of outlines held in memory; a glyph
/// that is not listed fails with `GlyphNotFound`.
pub struct MemoryOutlines {
    pub glyphs: Vec<GlyphOutline>,
}

impl OutlineSource for MemoryOutlines {
    open spec fn outline_spec(&self, glyph_id: GlyphId) -> Result<Seq<PathEl>, Error> {
        match find_outline_from(self.glyphs@, glyph_id, 0) {
            Option::Some(i) => Ok(self.glyphs@[i].els@),
            Option::None => Err(Error::GlyphNotFound(glyph_id)),
        }
    }

    fn outline(&self, glyph_id: GlyphId, builder: &mut PathBuilder) -> (r: Result<(), Error>) {
        let n = self.glyphs.len();
        let mut i: usize = 0;
        while i < n
            invariant
                0 <= i <= n,
                n == self.glyphs@.len(),
                builder@ == old(builder)@,
                find_outline_from(self.glyphs@, glyph_id, 0) == find_outline_from(
                    self.glyphs@,
                    glyph_id,
                    i as int,
                ),
            decreases n - i,
        {
            if self.glyphs[i].glyph_id == glyph_id {
                let els = &self.glyphs[i].els;
                let m = els.len();
                let mut k: usize = 0;
                while k < m
                    invariant
                        0 <= k <= m,
                        m == els@.len(),
                        els@ == self.glyphs@[i as int].els@,
                        builder@ == old(builder)@ + els@.take(k as int),
                    decreases m - k,
                {
                    proof {
                        assert(els@.take(k as int + 1).drop_last() =~= els@.take(k as int));
                        assert(els@.take(k as int + 1).last() == els@[k as int]);
                    }
                    match els[k] {
                        PathEl::MoveTo(p) => builder.move_to(p.x, p.y),
                        PathEl::LineTo(p) => builder.line_to(p.x, p.y),
                        PathEl::QuadTo(c, p) => builder.quad_to(c.x, c.y, p.x, p.y),
                        PathEl::CurveTo(c0, c1, p) => builder.curve_to(
                            c0.x,
                            c0.y,
                            c1.x,
                            c1.y,
                            p.x,
                            p.y,
                        ),
                        PathEl::Close => builder.close(),
                    }
                    k = k + 1;
                }
                proof {
                    assert(els@.take(m as int) =~= els@);
                }
                return Ok(());
            }
            i = i + 1;
        }
        Err(Error::GlyphNotFound(glyph_id))
    }
}

/// The reusable scratch arena of one evaluator: recorded brushes, color
/// stops, cached paths with their shared verb and point buffers, the
/// visited set of the current evaluation, and the output command list. It
/// is reset at the start of every load and its indices are stable only for
/// the duration of that load.
pub struct Context {
    brushes: Vec<BrushEntry>,
    stops: Vec<ColorStop>,
    paths: Vec<PathData>,
    verbs: Vec<Verb>,
    points: Vec<FixedPoint>,
    blacklist: Vec<u32>,
    commands: Vec<Command>,
}

impl View for Context {
    type V = CtxSnap;

    closed spec fn view(&self) -> CtxSnap {
        CtxSnap {
            brushes: self.brushes@,
            stops: self.stops@,
            paths: self.paths@,
            verbs: self.verbs@,
            points: self.points@,
            commands: self.commands@,
        }
    }
}

impl Context {
    /// The visited set: identifiers of the paints on the path from the root
    /// of the current evaluation.
    pub closed spec fn blacklist_view(&self) -> Seq<u32> {
        self.blacklist@
    }

    /// Creates an empty context.
    pub fn new() -> (r: Context)
        ensures
            r@ == empty_snap(),
            r.blacklist_view() == Seq::<u32>::empty(),
    {
        let r = Context {
            brushes: Vec::new(),
            stops: Vec::new(),
            paths: Vec::new(),
            verbs: Vec::new(),
            points: Vec::new(),
            blacklist: Vec::new(),
            commands: Vec::new(),
        };
        proof {
            assert(r@ =~= empty_snap());
        }
        r
    }

    /// Clears every arena; allocations are kept for reuse.
    pub fn reset(&mut self)
        ensures
            final(self)@ == empty_snap(),
            final(self).blacklist_view() == Seq::<u32>::empty(),
    {
        self.brushes.clear();
        self.stops.clear();
        self.paths.clear();
        self.verbs.clear();
        self.points.clear();
        self.blacklist.clear();
        self.commands.clear();
        proof {
            assert(self@ =~= empty_snap());
        }
    }

    /// The recorded command list.
    pub fn commands(&self) -> (r: &Vec<Command>)
        ensures
            r@ == self@.commands,
    {
        &self.commands
    }

    /// The number of cached paths: one per outline extracted in the current
    /// load.
    pub fn path_count(&self) -> (r: usize)
        ensures
            r == self@.paths.len(),
    {
        self.paths.len()
    }
}

/// The paths, verbs and points of a context after caching a new outline.
pub open spec fn append_path_snap(m: CtxSnap, g: GlyphId, els: Seq<PathEl>) -> CtxSnap {
    CtxSnap {
        paths: m.paths.push(
            PathData {
                glyph_id: g,
                verb_start: m.verbs.len() as usize,
                verb_end: (m.verbs.len() + els_verbs(els).len()) as usize,
                point_start: m.points.len() as usize,
                point_end: (m.points.len() + els_points(els).len()) as usize,
            },
        ),
        verbs: m.verbs + els_verbs(els),
        points: m.points + els_points(els),
        ..m
    }
}

/// The result of asking the context for a glyph's path: the cached index if
/// the glyph was already extracted, else the outline source's answer
/// appended as a new cached path.
pub open spec fn push_path_spec<O: OutlineSource + ?Sized>(
    o: &O,
    m: CtxSnap,
    g: GlyphId,
) -> Result<(CtxSnap, int), Error> {
    match find_path_from(m.paths, g, 0) {
        Option::Some(i) => Ok((m, i)),
        Option::None => match o.outline_spec(g) {
            Ok(els) => Ok((append_path_snap(m, g, els), m.paths.len() as int)),
            Err(e) => Err(e),
        },
    }
}

/// A `None` search result means no entry at or after `i` has the glyph.
proof fn lemma_find_path_none(paths: Seq<PathData>, g: GlyphId, i: int)
    requires
        0 <= i,
        find_path_from(paths, g, i) is None,
    ensures
        forall|j: int| i <= j < paths.len() ==> (#[trigger] paths[j]).glyph_id != g,
    decreases paths.len() - i,
{
    if i < paths.len() {
        lemma_find_path_none(paths, g, i + 1);
    }
}

/// A sequence of path elements supplies exactly the points its verbs
/// consume.
proof fn lemma_els_counts(els: Seq<PathEl>)
    ensures
        els_points(els).len() == total_points(els_verbs(els)),
        els_verbs(els).len() == els.len(),
    decreases els.len(),
{
    if els.len() > 0 {
        lemma_els_counts(els.drop_last());
        assert(els_verbs(els).drop_last() =~= els_verbs(els.drop_last()));
    }
}

/// Appending to the shared buffers leaves every earlier subrange as it was.
proof fn lemma_subrange_stable<T>(s: Seq<T>, ext: Seq<T>, a: int, b: int)
    requires
        0 <= a <= b <= s.len(),
    ensures
        (s + ext).subrange(a, b) == s.subrange(a, b),
{
    assert((s + ext).subrange(a, b) =~= s.subrange(a, b));
}

/// One resolved color stop: offset and alpha resolved for the instance, the
/// color taken from the palette and scaled by the alpha.
pub open spec fn resolve_stop_spec<P: PaletteLookup + ?Sized>(
    t: PaintTable,
    p: &P,
    s: ColorStopRecord,
) -> ColorStop {
    ColorStop {
        offset: resolve_spec(t, s.offset) as i32,
        color: apply_alpha_spec(p.color_spec(s.palette_index), resolve_spec(t, s.alpha)),
    }
}

/// The resolved form of a gradient's color line, in order.
pub open spec fn resolve_stops_spec<P: PaletteLookup + ?Sized>(
    t: PaintTable,
    p: &P,
    stops: Seq<ColorStopRecord>,
) -> Seq<ColorStop>
    decreases stops.len(),
{
    if stops.len() == 0 {
        Seq::empty()
    } else {
        resolve_stops_spec(t, p, stops.drop_last()).push(resolve_stop_spec(t, p, stops.last()))
    }
}

/// Resolving one more stop appends its resolved form.
proof fn lemma_resolve_stops_step<P: PaletteLookup + ?Sized>(
    t: PaintTable,
    p: &P,
    stops: Seq<ColorStopRecord>,
    k: int,
)
    requires
        0 <= k < stops.len(),
    ensures
        resolve_stops_spec(t, p, stops.take(k + 1)) == resolve_stops_spec(
            t,
            p,
            stops.take(k),
        ).push(resolve_stop_spec(t, p, stops[k])),
{
    assert(stops.take(k + 1).drop_last() =~= stops.take(k));
    assert(stops.take(k + 1).last() == stops[k]);
}

impl Context {
    /// Returns the cached path index for the glyph, extracting its outline
    /// through the source exactly once per load: a second request for the
    /// same glyph returns the index already recorded.
    fn push_path<O: OutlineSource + ?Sized>(
        &mut self,
        glyph_id: GlyphId,
        outlines: &O,
    ) -> (r: Result<usize, Error>)
        ensures
            final(self).blacklist_view() == old(self).blacklist_view(),
            match push_path_spec(outlines, old(self)@, glyph_id) {
                Ok(res) => r == Ok::<usize, Error>(res.1 as usize) && final(self)@ == res.0
                    && 0 <= res.1 < final(self)@.paths.len(),
                Err(e) => r == Err::<usize, Error>(e) && final(self)@ == old(self)@,
            },
            ctx_wf(old(self)@) ==> ctx_wf(final(self)@),
    {
        let n = self.paths.len();
        let mut i: usize = 0;
        while i < n
            invariant
                0 <= i <= n,
                n == self.paths@.len(),
                find_path_from(self.paths@, glyph_id, 0) == find_path_from(
                    self.paths@,
                    glyph_id,
                    i as int,
                ),
            decreases n - i,
        {
            if self.paths[i].glyph_id == glyph_id {
                return Ok(i);
            }
            i = i + 1;
        }
        let ghost m0 = self@;
        let mut builder = PathBuilder::new();
        let res = outlines.outline(glyph_id, &mut builder);
        match res {
            Err(e) => {
                return Err(e);
            }
            Ok(_) => {}
        }
        let ghost els = builder@;
        let verb_start = self.verbs.len();
        let point_start = self.points.len();
        let elements = builder.elements();
        let m = elements.len();
        let mut k: usize = 0;
        while k < m
            invariant
                0 <= k <= m,
                m == elements@.len(),
                elements@ == els,
                self@.verbs == m0.verbs + els_verbs(els.take(k as int)),
                self@.points == m0.points + els_points(els.take(k as int)),
                self@.brushes == m0.brushes,
                self@.stops == m0.stops,
                self@.paths == m0.paths,
                self@.commands == m0.commands,
                self.blacklist_view() == old(self).blacklist_view(),
                verb_start == m0.verbs.len(),
                point_start == m0.points.len(),
            decreases m - k,
        {
            proof {
                assert(els.take(k as int + 1).drop_last() =~= els.take(k as int));
                assert(els.take(k as int + 1).last() == els[k as int]);
                assert(els_verbs(els.take(k as int + 1)) == els_verbs(
                    els.take(k as int),
                ).push(el_verb(els[k as int])));
                assert(els_points(els.take(k as int + 1)) == els_points(els.take(k as int))
                    + el_points(els[k as int]));
            }
            let el = elements[k];
            match el {
                PathEl::MoveTo(p) => {
                    self.verbs.push(Verb::MoveTo);
                    self.points.push(p);
                }
                PathEl::LineTo(p) => {
                    self.verbs.push(Verb::LineTo);
                    self.points.push(p);
                }
                PathEl::QuadTo(c, p) => {
                    self.verbs.push(Verb::QuadTo);
                    self.points.push(c);
                    self.points.push(p);
                }
                PathEl::CurveTo(c0, c1, p) => {
                    self.verbs.push(Verb::CurveTo);
                    self.points.push(c0);
                    self.points.push(c1);
                    self.points.push(p);
                }
                PathEl::Close => {
                    self.verbs.push(Verb::Close);
                }
            }
            proof {
                assert(self@.verbs =~= m0.verbs + els_verbs(els.take(k as int + 1)));
                assert(self@.points =~= m0.points + els_points(els.take(k as int + 1)));
            }
            k = k + 1;
        }
        proof {
            assert(els.take(m as int) =~= els);
            lemma_els_counts(els);
        }
        let verb_end = self.verbs.len();
        let point_end = self.points.len();
        let index = self.paths.len();
        self.paths.push(
            PathData { glyph_id, verb_start, verb_end, point_start, point_end },
        );
        proof {
            let mf = self@;
            let spec_m = append_path_snap(m0, glyph_id, els);
            assert(m0.verbs.len() + els_verbs(els).len() == verb_end as int);
            assert(m0.points.len() + els_points(els).len() == point_end as int);
            assert(mf.paths =~= spec_m.paths);
            assert(mf =~= spec_m);
            if ctx_wf(m0) {
                lemma_push_path_wf(m0, glyph_id, els);
            }
        }
        Ok(index)
    }

    /// Records a brush with the transform it is painted under and returns
    /// its index.
    fn push_brush(&mut self, brush: BrushData, transform: Option<Transform>) -> (r: usize)
        ensures
            final(self)@ == (CtxSnap {
                brushes: old(self)@.brushes.push(BrushEntry { brush, transform }),
                ..old(self)@
            }),
            final(self).blacklist_view() == old(self).blacklist_view(),
            r == old(self)@.brushes.len(),
    {
        let index = self.brushes.len();
        self.brushes.push(BrushEntry { brush, transform });
        index
    }

    /// Appends a command to the output list.
    fn push_command(&mut self, c: Command)
        ensures
            final(self)@ == (CtxSnap { commands: old(self)@.commands.push(c), ..old(self)@ }),
            final(self).blacklist_view() == old(self).blacklist_view(),
    {
        self.commands.push(c);
    }

    /// Resolves a gradient's color line into the shared stop list and
    /// returns its range.
    fn push_stops<P: PaletteLookup + ?Sized>(
        &mut self,
        table: &PaintTable,
        palette: &P,
        stops: &Vec<ColorStopRecord>,
    ) -> (r: (usize, usize))
        ensures
            final(self)@ == (CtxSnap {
                stops: old(self)@.stops + resolve_stops_spec(*table, palette, stops@),
                ..old(self)@
            }),
            final(self).blacklist_view() == old(self).blacklist_view(),
            r.0 == old(self)@.stops.len(),
            r.1 == final(self)@.stops.len(),
            r.0 <= r.1,
    {
        let ghost m0 = self@;
        let start = self.stops.len();
        let n = stops.len();
        let mut k: usize = 0;
        while k < n
            invariant
                0 <= k <= n,
                n == stops@.len(),
                self@.stops == m0.stops + resolve_stops_spec(*table, palette, stops@.take(k as int)),
                self@.brushes == m0.brushes,
                self@.paths == m0.paths,
                self@.verbs == m0.verbs,
                self@.points == m0.points,
                self@.commands == m0.commands,
                self.blacklist_view() == old(self).blacklist_view(),
                start == m0.stops.len(),
            decreases n - k,
        {
            proof {
                lemma_resolve_stops_step(*table, palette, stops@, k as int);
            }
            let s = stops[k];
            let offset = table.resolve(s.offset);
            let color = apply_alpha(palette.color(s.palette_index), table.resolve(s.alpha));
            self.stops.push(ColorStop { offset, color });
            k = k + 1;
        }
        proof {
            assert(stops@.take(n as int) =~= stops@);
        }
        let end = self.stops.len();
        proof {
            assert(self@ =~= (CtxSnap {
                stops: m0.stops + resolve_stops_spec(*table, palette, stops@),
                ..m0
            }));
        }
        (start, end)
    }


    /// Whether a paint identifier is on the path from the root.
    fn blacklist_contains(&self, id: u32) -> (r: bool)
        ensures
            r == self.blacklist_view().contains(id),
    {
        let n = self.blacklist.len();
        let mut i: usize = 0;
        while i < n
            invariant
                0 <= i <= n,
                n == self.blacklist@.len(),
                forall|j: int| 0 <= j < i ==> self.blacklist@[j] != id,
            decreases n - i,
        {
            if self.blacklist[i] == id {
                return true;
            }
            i = i + 1;
        }
        proof {
            assert(!self.blacklist_view().contains(id));
        }
        false
    }

    /// Marks a paint identifier visited for the current path.
    fn blacklist_push(&mut self, id: u32)
        ensures
            final(self)@ == old(self)@,
            final(self).blacklist_view() == old(self).blacklist_view().push(id),
    {
        self.blacklist.push(id);
    }

    /// Unmarks the most recently visited paint identifier.
    fn blacklist_pop(&mut self)
        requires
            old(self).blacklist_view().len() > 0,
        ensures
            final(self)@ == old(self)@,
            final(self).blacklist_view() == old(self).blacklist_view().drop_last(),
    {
        let _ = self.blacklist.pop();
    }

    /// Borrows the cached path at an index.
    pub(crate) fn path(&self, index: usize) -> (r: Path<'_>)
        requires
            ctx_wf(self@),
            index < self@.paths.len(),
        ensures
            r.wf(),
            r.verbs_view() == self@.verbs.subrange(
                self@.paths[index as int].verb_start as int,
                self@.paths[index as int].verb_end as int,
            ),
            r.points_view() == self@.points.subrange(
                self@.paths[index as int].point_start as int,
                self@.paths[index as int].point_end as int,
            ),
    {
        let pd = self.paths[index];
        let verbs = vstd::slice::slice_subrange(self.verbs.as_slice(), pd.verb_start, pd.verb_end);
        let points = vstd::slice::slice_subrange(
            self.points.as_slice(),
            pd.point_start,
            pd.point_end,
        );
        Path::new(verbs, points)
    }

    /// Borrows the recorded brush at an index, with its transform: a solid
    /// entry yields its recorded color, a gradient entry its recorded kind
    /// and extend over the recorded slice of the shared stop list.
    pub(crate) fn brush(&self, index: usize) -> (r: (Brush<'_>, Option<Transform>))
        requires
            ctx_wf(self@),
            index < self@.brushes.len(),
        ensures
            r.1 == self@.brushes[index as int].transform,
            match self@.brushes[index as int].brush {
                BrushData::Solid(c) => r.0 matches Brush::Solid(rc) && rc == c,
                BrushData::Gradient(g) => r.0 matches Brush::Gradient(rg) && rg.kind == g.kind
                    && rg.extend == g.extend && rg.stops@ == self@.stops.subrange(
                    g.stop_start as int,
                    g.stop_end as int,
                ),
            },
    {
        let entry = self.brushes[index];
        match entry.brush {
            BrushData::Solid(c) => (Brush::Solid(c), entry.transform),
            BrushData::Gradient(g) => (
                Brush::Gradient(
                    Gradient {
                        kind: g.kind,
                        extend: g.extend,
                        stops: vstd::slice::slice_subrange(
                            self.stops.as_slice(),
                            g.stop_start,
                            g.stop_end,
                        ),
                    },
                ),
                entry.transform,
            ),
        }
    }
}

/// Caching a new outline preserves context well-formedness: the new path's
/// ranges are exactly the appended elements, earlier ranges are unmoved,
/// and the new glyph was not cached before.
proof fn lemma_push_path_wf(m: CtxSnap, g: GlyphId, els: Seq<PathEl>)
    requires
        ctx_wf(m),
        find_path_from(m.paths, g, 0) is None,
        m.verbs.len() + els_verbs(els).len() <= usize::MAX,
        m.points.len() + els_points(els).len() <= usize::MAX,
    ensures
        ctx_wf(append_path_snap(m, g, els)),
{
    let m2 = append_path_snap(m, g, els);
    lemma_els_counts(els);
    lemma_find_path_none(m.paths, g, 0);
    assert forall|i: int| 0 <= i < m2.paths.len() implies path_data_wf(m2, #[trigger] m2.paths[i])
    by {
        if i < m.paths.len() {
            let p = m.paths[i];
            lemma_subrange_stable(m.verbs, els_verbs(els), p.verb_start as int, p.verb_end as int);
            lemma_subrange_stable(
                m.points,
                els_points(els),
                p.point_start as int,
                p.point_end as int,
            );
        } else {
            let p = m2.paths[i];
            assert(m2.verbs.subrange(p.verb_start as int, p.verb_end as int) =~= els_verbs(els));
            assert(m2.points.subrange(p.point_start as int, p.point_end as int) =~= els_points(
                els,
            ));
        }
    }
    assert forall|i: int, j: int| 0 <= i < j < m2.paths.len() implies (
    #[trigger] m2.paths[i]).glyph_id != (#[trigger] m2.paths[j]).glyph_id by {
        if j == m.paths.len() as int {
            assert(m.paths[i].glyph_id != g);
        }
    }
    assert forall|i: int| 0 <= i < m2.commands.len() implies command_wf(m2, #[trigger] m2.commands[i])
    by {
        assert(command_wf(m, m.commands[i]));
    }
}

/// The projection of `a` onto the direction of `b`, in 16.16 fixed point:
/// `b * (a . b) / (b . b)`, or zero when `b` is the zero vector. Each
/// coordinate floors and then saturates to the `i32` range.
pub open spec fn project_spec(a: FixedPoint, b: FixedPoint) -> FixedPoint {
    let bb = b.x * b.x + b.y * b.y;
    if bb == 0 {
        FixedPoint { x: 0, y: 0 }
    } else {
        let ab = a.x * b.x + a.y * b.y;
        FixedPoint {
            x: sat32_spec((b.x * ab) / bb) as i32,
            y: sat32_spec((b.y * ab) / bb) as i32,
        }
    }
}

/// The gradient axis of the three-point convention: the start is `p0`; the
/// end is `p0` plus the projection of `p0 -> p1` onto the perpendicular of
/// `p0 -> p2`.
pub open spec fn linear_endpoints_spec(
    p0: FixedPoint,
    p1: FixedPoint,
    p2: FixedPoint,
) -> (FixedPoint, FixedPoint) {
    let dx = sat_sub_spec(p2.x as int, p0.x as int);
    let dy = sat_sub_spec(p2.y as int, p0.y as int);
    let perp = FixedPoint { x: dy as i32, y: sat_neg_spec(dx) as i32 };
    let a = FixedPoint {
        x: sat_sub_spec(p1.x as int, p0.x as int) as i32,
        y: sat_sub_spec(p1.y as int, p0.y as int) as i32,
    };
    let pr = project_spec(a, perp);
    let p3 = FixedPoint {
        x: sat_add_spec(p0.x as int, pr.x as int) as i32,
        y: sat_add_spec(p0.y as int, pr.y as int) as i32,
    };
    (p0, p3)
}

/// Computes the fixed-point projection of `a` onto the direction of `b`.
fn project(a: FixedPoint, b: FixedPoint) -> (r: FixedPoint)
    ensures
        r == project_spec(a, b),
{
    let bx = b.x as i128;
    let by = b.y as i128;
    proof {
        assert(0 <= bx * bx <= 0x4000_0000_0000_0000) by (nonlinear_arith)
            requires
                -0x8000_0000 <= bx <= 0x7fff_ffff,
        ;
        assert(0 <= by * by <= 0x4000_0000_0000_0000) by (nonlinear_arith)
            requires
                -0x8000_0000 <= by <= 0x7fff_ffff,
        ;
    }
    let bb = bx * bx + by * by;
    if bb == 0 {
        FixedPoint { x: 0, y: 0 }
    } else {
        let ax = a.x as i128;
        let ay = a.y as i128;
        proof {
            assert(-0x4000_0000_0000_0000 <= ax * bx <= 0x4000_0000_0000_0000)
                by (nonlinear_arith)
                requires
                    -0x8000_0000 <= ax <= 0x7fff_ffff,
                    -0x8000_0000 <= bx <= 0x7fff_ffff,
            ;
            assert(-0x4000_0000_0000_0000 <= ay * by <= 0x4000_0000_0000_0000)
                by (nonlinear_arith)
                requires
                    -0x8000_0000 <= ay <= 0x7fff_ffff,
                    -0x8000_0000 <= by <= 0x7fff_ffff,
            ;
        }
        let ab = ax * bx + ay * by;
        proof {
            assert(-0x4000_0000_0000_0000_0000_0000 <= bx * ab
                <= 0x4000_0000_0000_0000_0000_0000) by (nonlinear_arith)
                requires
                    -0x8000_0000 <= bx <= 0x7fff_ffff,
                    -0x8000_0000_0000_0000 <= ab <= 0x8000_0000_0000_0000,
            ;
            assert(-0x4000_0000_0000_0000_0000_0000 <= by * ab
                <= 0x4000_0000_0000_0000_0000_0000) by (nonlinear_arith)
                requires
                    -0x8000_0000 <= by <= 0x7fff_ffff,
                    -0x8000_0000_0000_0000 <= ab <= 0x8000_0000_0000_0000,
            ;
        }
        let qx = div_floor_i128(bx * ab, bb);
        let qy = div_floor_i128(by * ab, bb);
        let rx: i32 = if qx > 0x7fff_ffff {
            i32::MAX
        } else if qx < -0x8000_0000 {
            i32::MIN
        } else {
            qx as i32
        };
        let ry: i32 = if qy > 0x7fff_ffff {
            i32::MAX
        } else if qy < -0x8000_0000 {
            i32::MIN
        } else {
            qy as i32
        };
        FixedPoint { x: rx, y: ry }
    }
}

/// Computes the start and end of a linear gradient from its three control
/// points.
fn linear_endpoints(p0: FixedPoint, p1: FixedPoint, p2: FixedPoint) -> (r: (
    FixedPoint,
    FixedPoint,
))
    ensures
        r == linear_endpoints_spec(p0, p1, p2),
{
    let dx = sat_sub(p2.x, p0.x);
    let dy = sat_sub(p2.y, p0.y);
    let perp = FixedPoint { x: dy, y: sat_neg(dx) };
    let a = FixedPoint { x: sat_sub(p1.x, p0.x), y: sat_sub(p1.y, p0.y) };
    let pr = project(a, perp);
    let p3 = FixedPoint { x: sat_add(p0.x, pr.x), y: sat_add(p0.y, pr.y) };
    (p0, p3)
}

/// A variable point resolved for the current instance.
pub open spec fn resolve_point_spec(t: PaintTable, p: VarPoint) -> FixedPoint {
    FixedPoint { x: resolve_spec(t, p.x) as i32, y: resolve_spec(t, p.y) as i32 }
}

/// The brush a brush-shaped paint node resolves to, with the resolved color
/// stops it appends to the context's stop list, whose length is
/// `stop_base`. Structural and transform nodes resolve to `None`.
pub open spec fn load_brush_spec<P: PaletteLookup + ?Sized>(
    t: PaintTable,
    p: &P,
    stop_base: int,
    node: PaintNode,
) -> Option<(BrushData, Seq<ColorStop>)> {
    match node {
        PaintNode::Solid { palette_index, alpha } => Option::Some(
            (
                BrushData::Solid(
                    apply_alpha_spec(p.color_spec(palette_index), resolve_spec(t, alpha)),
                ),
                Seq::empty(),
            ),
        ),
        PaintNode::LinearGradient { p0, p1, p2, stops, extend } => {
            let sr = resolve_stops_spec(t, p, stops@);
            let ends = linear_endpoints_spec(
                resolve_point_spec(t, p0),
                resolve_point_spec(t, p1),
                resolve_point_spec(t, p2),
            );
            Option::Some(
                (
                    BrushData::Gradient(
                        GradientData {
                            kind: GradientKind::Linear { start: ends.0, end: ends.1 },
                            extend,
                            stop_start: stop_base as usize,
                            stop_end: (stop_base + sr.len()) as usize,
                        },
                    ),
                    sr,
                ),
            )
        },
        PaintNode::RadialGradient { c0, r0, c1, r1, stops, extend } => {
            let sr = resolve_stops_spec(t, p, stops@);
            Option::Some(
                (
                    BrushData::Gradient(
                        GradientData {
                            kind: GradientKind::Radial {
                                start_center: resolve_point_spec(t, c0),
                                start_radius: resolve_spec(t, r0) as i32,
                                end_center: resolve_point_spec(t, c1),
                                end_radius: resolve_spec(t, r1) as i32,
                            },
                            extend,
                            stop_start: stop_base as usize,
                            stop_end: (stop_base + sr.len()) as usize,
                        },
                    ),
                    sr,
                ),
            )
        },
        PaintNode::SweepGradient { center, start_angle, end_angle, stops, extend } => {
            let sr = resolve_stops_spec(t, p, stops@);
            Option::Some(
                (
                    BrushData::Gradient(
                        GradientData {
                            kind: GradientKind::Sweep {
                                center: resolve_point_spec(t, center),
                                start_angle: resolve_spec(t, start_angle) as i32,
                                end_angle: resolve_spec(t, end_angle) as i32,
                            },
                            extend,
                            stop_start: stop_base as usize,
                            stop_end: (stop_base + sr.len()) as usize,
                        },
                    ),
                    sr,
                ),
            )
        },
        _ => Option::None,
    }
}

/// The first version-0 base glyph record for a glyph at or after `i`.
pub open spec fn find_base_v0_from(s: Seq<BaseGlyph>, g: GlyphId, i: int) -> Option<int>
    decreases s.len() - i,
{
    if i < 0 || i >= s.len() {
        Option::None
    } else if s[i].glyph_id == g {
        Option::Some(i)
    } else {
        find_base_v0_from(s, g, i + 1)
    }
}

/// The version-0 base glyph record for a glyph, if any.
pub open spec fn find_base_v0(t: PaintTable, g: GlyphId) -> Option<int> {
    find_base_v0_from(t.v0_glyphs@, g, 0)
}

/// The first version-1 base glyph record for a glyph at or after `i`.
pub open spec fn find_base_v1_from(s: Seq<BaseGlyphPaint>, g: GlyphId, i: int) -> Option<int>
    decreases s.len() - i,
{
    if i < 0 || i >= s.len() {
        Option::None
    } else if s[i].glyph_id == g {
        Option::Some(i)
    } else {
        find_base_v1_from(s, g, i + 1)
    }
}

/// The version-1 base glyph record for a glyph, if any.
pub open spec fn find_base_v1(t: PaintTable, g: GlyphId) -> Option<int> {
    find_base_v1_from(t.v1_glyphs@, g, 0)
}

/// Nothing matches at or after `i`, so the search from `i` fails.
proof fn lemma_v0_no_match(s: Seq<BaseGlyph>, g: GlyphId, i: int)
    requires
        0 <= i,
        forall|j: int| i <= j < s.len() ==> (#[trigger] s[j]).glyph_id != g,
    ensures
        find_base_v0_from(s, g, i) is None,
    decreases s.len() - i,
{
    if i < s.len() {
        lemma_v0_no_match(s, g, i + 1);
    }
}

/// In a sorted table a matching record is the one the search finds.
proof fn lemma_v0_match_at(s: Seq<BaseGlyph>, g: GlyphId, j: int, i: int)
    requires
        0 <= i <= j < s.len(),
        s[j].glyph_id == g,
        forall|a: int, b: int|
            0 <= a < b < s.len() ==> (#[trigger] s[a]).glyph_id < (#[trigger] s[b]).glyph_id,
    ensures
        find_base_v0_from(s, g, i) == Option::Some(j),
    decreases j - i,
{
    if i < j {
        assert(s[i].glyph_id < s[j].glyph_id);
        lemma_v0_match_at(s, g, j, i + 1);
    }
}

/// Nothing matches at or after `i`, so the search from `i` fails.
proof fn lemma_v1_no_match(s: Seq<BaseGlyphPaint>, g: GlyphId, i: int)
    requires
        0 <= i,
        forall|j: int| i <= j < s.len() ==> (#[trigger] s[j]).glyph_id != g,
    ensures
        find_base_v1_from(s, g, i) is None,
    decreases s.len() - i,
{
    if i < s.len() {
        lemma_v1_no_match(s, g, i + 1);
    }
}

/// In a sorted table a matching record is the one the search finds.
proof fn lemma_v1_match_at(s: Seq<BaseGlyphPaint>, g: GlyphId, j: int, i: int)
    requires
        0 <= i <= j < s.len(),
        s[j].glyph_id == g,
        forall|a: int, b: int|
            0 <= a < b < s.len() ==> (#[trigger] s[a]).glyph_id < (#[trigger] s[b]).glyph_id,
    ensures
        find_base_v1_from(s, g, i) == Option::Some(j),
    decreases j - i,
{
    if i < j {
        assert(s[i].glyph_id < s[j].glyph_id);
        lemma_v1_match_at(s, g, j, i + 1);
    }
}

/// Whether a paint node is a geometric-transform wrapper.
pub open spec fn is_transform_node(node: PaintNode) -> bool {
    match node {
        PaintNode::Matrix { .. } => true,
        PaintNode::Translate { .. } => true,
        PaintNode::Scale { .. } => true,
        PaintNode::Rotate { .. } => true,
        PaintNode::Skew { .. } => true,
        _ => false,
    }
}

/// The child paint of a transform wrapper.
pub open spec fn transform_child(node: PaintNode) -> u32 {
    match node {
        PaintNode::Matrix { paint, .. } => paint,
        PaintNode::Translate { paint, .. } => paint,
        PaintNode::Scale { paint, .. } => paint,
        PaintNode::Rotate { paint, .. } => paint,
        PaintNode::Skew { paint, .. } => paint,
        _ => 0,
    }
}

/// A transform conjugated about an optional resolved center point.
pub open spec fn maybe_around_spec(
    t: PaintTable,
    m: Transform,
    center: Option<VarPoint>,
) -> Transform {
    match center {
        Option::None => m,
        Option::Some(c) => crate::transform::around_center_spec(
            m,
            resolve_spec(t, c.x),
            resolve_spec(t, c.y),
        ),
    }
}

/// The affine matrix of one transform wrapper, with every varying scalar
/// resolved for the current instance. Angles are 16.16 half-turns; a skew's
/// x angle enters negated, matching the direction convention of the format.
pub open spec fn node_matrix_spec(t: PaintTable, node: PaintNode) -> Transform {
    match node {
        PaintNode::Matrix { xx, yx, xy, yy, dx, dy, .. } => Transform {
            xx: resolve_spec(t, xx) as i32,
            yx: resolve_spec(t, yx) as i32,
            xy: resolve_spec(t, xy) as i32,
            yy: resolve_spec(t, yy) as i32,
            dx: resolve_spec(t, dx) as i32,
            dy: resolve_spec(t, dy) as i32,
        },
        PaintNode::Translate { dx, dy, .. } => crate::transform::translate_spec(
            resolve_spec(t, dx),
            resolve_spec(t, dy),
        ),
        PaintNode::Scale { sx, sy, center, .. } => maybe_around_spec(
            t,
            crate::transform::scale_spec(resolve_spec(t, sx), resolve_spec(t, sy)),
            center,
        ),
        PaintNode::Rotate { angle, center, .. } => maybe_around_spec(
            t,
            crate::transform::rotate_spec(resolve_spec(t, angle)),
            center,
        ),
        PaintNode::Skew { x_angle, y_angle, center, .. } => maybe_around_spec(
            t,
            crate::transform::skew_spec(
                sat_neg_spec(resolve_spec(t, x_angle)),
                resolve_spec(t, y_angle),
            ),
            center,
        ),
        _ => crate::transform::identity_spec(),
    }
}

/// Strips the chain of transform wrappers starting at paint `ix`, composing
/// their matrices left to right onto `acc`, and yields the composed matrix
/// (if any wrapper was present) together with the first non-transform node.
/// An index outside the arena is a read error; a chain longer than the fuel
/// is cut by the depth ceiling.
pub open spec fn flatten_spec(
    t: PaintTable,
    ix: int,
    acc: Option<Transform>,
    fuel: nat,
) -> Result<(Option<Transform>, int), Error>
    decreases fuel,
{
    if !(0 <= ix < t.paints@.len()) {
        Err(Error::ReadError)
    } else {
        let node = t.paints@[ix];
        if is_transform_node(node) {
            if fuel == 0 {
                Err(Error::DepthLimitExceeded)
            } else {
                let tr = node_matrix_spec(t, node);
                let acc2 = match acc {
                    Option::None => Option::Some(tr),
                    Option::Some(a) => Option::Some(crate::transform::mul_spec(a, tr)),
                };
                flatten_spec(t, transform_child(node) as int, acc2, (fuel - 1) as nat)
            }
        } else {
            Ok((acc, ix))
        }
    }
}

/// The context after emitting a `PushTransform`, if a matrix is pending.
pub open spec fn push_tr_snap(m: CtxSnap, tr: Option<Transform>) -> CtxSnap {
    match tr {
        Option::None => m,
        Option::Some(x) => CtxSnap {
            commands: m.commands.push(Command::PushTransform(x)),
            ..m
        },
    }
}

/// The context after emitting the matching `PopTransform`, if a matrix was
/// pushed.
pub open spec fn pop_tr_snap(m: CtxSnap, tr: Option<Transform>) -> CtxSnap {
    match tr {
        Option::None => m,
        Option::Some(_) => CtxSnap { commands: m.commands.push(Command::PopTransform), ..m },
    }
}

/// The context after appending one command.
pub open spec fn push_cmd_snap(m: CtxSnap, c: Command) -> CtxSnap {
    CtxSnap { commands: m.commands.push(c), ..m }
}

/// The context after recording a brush (with its pending transform), the
/// resolved stops it refers to, and the fill command that paints it.
pub open spec fn fill_brush_snap(
    m: CtxSnap,
    bd: BrushData,
    stops: Seq<ColorStop>,
    tr: Option<Transform>,
    cmd: Command,
) -> CtxSnap {
    CtxSnap {
        stops: m.stops + stops,
        brushes: m.brushes.push(BrushEntry { brush: bd, transform: tr }),
        commands: m.commands.push(cmd),
        ..m
    }
}

/// One step of the paint-graph evaluation: strips transforms, then
/// dispatches on the node kind, appending commands to the context. `bl` is
/// the set of paint identifiers on the path from the root; a referenced
/// paint already on it is silently skipped. `fuel` bounds the recursion
/// depth.
pub open spec fn eval_paint_spec<P: PaletteLookup + ?Sized, O: OutlineSource + ?Sized>(
    t: PaintTable,
    p: &P,
    o: &O,
    m: CtxSnap,
    bl: Seq<u32>,
    ix: int,
    fuel: nat,
) -> Result<CtxSnap, Error>
    decreases fuel, t.v1_layers@.len() + 1, 1int,
{
    match flatten_spec(t, ix, Option::None, fuel) {
        Err(e) => Err(e),
        Ok(flat) => {
            let tr = flat.0;
            let node = t.paints@[flat.1];
            match node {
                PaintNode::Layers { first, count } => {
                    if first + count > t.v1_layers@.len() {
                        Err(Error::ReadError)
                    } else {
                        match eval_layers_spec(
                            t,
                            p,
                            o,
                            push_tr_snap(m, tr),
                            bl,
                            first as int,
                            count as nat,
                            fuel,
                        ) {
                            Err(e) => Err(e),
                            Ok(m2) => Ok(pop_tr_snap(m2, tr)),
                        }
                    }
                },
                PaintNode::ColorGlyph { glyph_id } => {
                    match find_base_v1(t, glyph_id) {
                        Option::None => Err(Error::GlyphNotFound(glyph_id)),
                        Option::Some(bi) => {
                            let cid = t.v1_glyphs@[bi].paint;
                            let m1 = push_tr_snap(m, tr);
                            if bl.contains(cid) {
                                Ok(pop_tr_snap(m1, tr))
                            } else if fuel == 0 {
                                Err(Error::DepthLimitExceeded)
                            } else {
                                match eval_paint_spec(
                                    t,
                                    p,
                                    o,
                                    m1,
                                    bl.push(cid),
                                    cid as int,
                                    (fuel - 1) as nat,
                                ) {
                                    Err(e) => Err(e),
                                    Ok(m2) => Ok(pop_tr_snap(m2, tr)),
                                }
                            }
                        },
                    }
                },
                PaintNode::Composite { backdrop, mode, source } => {
                    if fuel == 0 {
                        Err(Error::DepthLimitExceeded)
                    } else {
                        let m1 = push_cmd_snap(
                            push_tr_snap(m, tr),
                            Command::PushLayer(Option::None),
                        );
                        match eval_paint_spec(
                            t,
                            p,
                            o,
                            m1,
                            bl,
                            backdrop as int,
                            (fuel - 1) as nat,
                        ) {
                            Err(e) => Err(e),
                            Ok(m2) => {
                                let m3 = push_cmd_snap(
                                    m2,
                                    Command::PushLayer(Option::Some(mode)),
                                );
                                match eval_paint_spec(
                                    t,
                                    p,
                                    o,
                                    m3,
                                    bl,
                                    source as int,
                                    (fuel - 1) as nat,
                                ) {
                                    Err(e) => Err(e),
                                    Ok(m4) => Ok(
                                        pop_tr_snap(
                                            push_cmd_snap(
                                                push_cmd_snap(m4, Command::PopLayer),
                                                Command::PopLayer,
                                            ),
                                            tr,
                                        ),
                                    ),
                                }
                            },
                        }
                    }
                },
                PaintNode::Glyph { glyph_id, paint } => {
                    let m1 = push_tr_snap(m, tr);
                    match push_path_spec(o, m1, glyph_id) {
                        Err(e) => Err(e),
                        Ok(pp) => {
                            let m2 = pp.0;
                            let path_ix = pp.1;
                            match flatten_spec(t, paint as int, Option::None, fuel) {
                                Err(e) => Err(e),
                                Ok(cflat) => {
                                    let ctr = cflat.0;
                                    let cnode = t.paints@[cflat.1];
                                    match load_brush_spec(t, p, m2.stops.len() as int, cnode) {
                                        Option::Some(bs) => {
                                            let m3 = fill_brush_snap(
                                                m2,
                                                bs.0,
                                                bs.1,
                                                ctr,
                                                Command::FillPath {
                                                    glyph_id,
                                                    path: path_ix as usize,
                                                    brush: m2.brushes.len() as usize,
                                                },
                                            );
                                            Ok(pop_tr_snap(m3, tr))
                                        },
                                        Option::None => {
                                            if fuel == 0 {
                                                Err(Error::DepthLimitExceeded)
                                            } else {
                                                let m3 = push_tr_snap(
                                                    push_cmd_snap(
                                                        m2,
                                                        Command::PushClip {
                                                            glyph_id,
                                                            path: path_ix as usize,
                                                        },
                                                    ),
                                                    ctr,
                                                );
                                                match eval_paint_spec(
                                                    t,
                                                    p,
                                                    o,
                                                    m3,
                                                    bl,
                                                    cflat.1,
                                                    (fuel - 1) as nat,
                                                ) {
                                                    Err(e) => Err(e),
                                                    Ok(m4) => Ok(
                                                        pop_tr_snap(
                                                            push_cmd_snap(
                                                                pop_tr_snap(m4, ctr),
                                                                Command::PopClip,
                                                            ),
                                                            tr,
                                                        ),
                                                    ),
                                                }
                                            }
                                        },
                                    }
                                },
                            }
                        },
                    }
                },
                _ => {
                    match load_brush_spec(t, p, m.stops.len() as int, node) {
                        Option::Some(bs) => Ok(
                            fill_brush_snap(
                                m,
                                bs.0,
                                bs.1,
                                tr,
                                Command::Fill(m.brushes.len() as usize),
                            ),
                        ),
                        Option::None => Err(Error::ReadError),
                    }
                },
            }
        },
    }
}

/// Evaluates `count` layers starting at `first`, in ascending order. A
/// layer whose paint identifier is already on the path from the root is a
/// cycle and is silently skipped; the identifier of an evaluated layer is
/// on the path only while that layer is evaluated, so siblings may reuse
/// it.
pub open spec fn eval_layers_spec<P: PaletteLookup + ?Sized, O: OutlineSource + ?Sized>(
    t: PaintTable,
    p: &P,
    o: &O,
    m: CtxSnap,
    bl: Seq<u32>,
    first: int,
    count: nat,
    fuel: nat,
) -> Result<CtxSnap, Error>
    decreases fuel, count, 0int,
{
    if count == 0 {
        Ok(m)
    } else if !(0 <= first < t.v1_layers@.len()) {
        Err(Error::ReadError)
    } else {
        let cid = t.v1_layers@[first];
        let step = if bl.contains(cid) {
            Ok(m)
        } else if fuel == 0 {
            Err(Error::DepthLimitExceeded)
        } else {
            eval_paint_spec(t, p, o, m, bl.push(cid), cid as int, (fuel - 1) as nat)
        };
        match step {
            Err(e) => Err(e),
            Ok(m2) => eval_layers_spec(t, p, o, m2, bl, first + 1, (count - 1) as nat, fuel),
        }
    }
}

/// Evaluates `count` version-0 layers starting at `first`, in layer order:
/// each fills its glyph's outline with its palette color.
pub open spec fn eval_v0_layers_spec<P: PaletteLookup + ?Sized, O: OutlineSource + ?Sized>(
    t: PaintTable,
    p: &P,
    o: &O,
    m: CtxSnap,
    first: int,
    count: nat,
) -> Result<CtxSnap, Error>
    decreases count,
{
    if count == 0 {
        Ok(m)
    } else if !(0 <= first < t.v0_layers@.len()) {
        Err(Error::ReadError)
    } else {
        let lr = t.v0_layers@[first];
        match push_path_spec(o, m, lr.glyph_id) {
            Err(e) => Err(e),
            Ok(pp) => {
                let m2 = pp.0;
                let m3 = fill_brush_snap(
                    m2,
                    BrushData::Solid(p.color_spec(lr.palette_index)),
                    Seq::empty(),
                    Option::None,
                    Command::FillPath {
                        glyph_id: lr.glyph_id,
                        path: pp.1 as usize,
                        brush: m2.brushes.len() as usize,
                    },
                );
                eval_v0_layers_spec(t, p, o, m3, first + 1, (count - 1) as nat)
            },
        }
    }
}

/// Loads a glyph from the version-0 layer list: one `FillPath` per layer,
/// in layer order. A glyph absent from the base table is `GlyphNotFound`.
pub open spec fn load_v0_spec<P: PaletteLookup + ?Sized, O: OutlineSource + ?Sized>(
    t: PaintTable,
    p: &P,
    o: &O,
    m: CtxSnap,
    g: GlyphId,
) -> Result<CtxSnap, Error> {
    match find_base_v0(t, g) {
        Option::None => Err(Error::GlyphNotFound(g)),
        Option::Some(i) => eval_v0_layers_spec(
            t,
            p,
            o,
            m,
            t.v0_glyphs@[i].first_layer as int,
            t.v0_glyphs@[i].num_layers as nat,
        ),
    }
}

/// The first clip record containing the glyph at or after `i`.
pub open spec fn find_clip_from(s: Seq<ClipRecord>, g: GlyphId, i: int) -> Option<int>
    decreases s.len() - i,
{
    if i < 0 || i >= s.len() {
        Option::None
    } else if s[i].start_glyph <= g && g <= s[i].end_glyph {
        Option::Some(i)
    } else {
        find_clip_from(s, g, i + 1)
    }
}

/// The conservative default clip box: 4096 font units on each side.
pub open spec fn default_box_spec() -> BoundingBox {
    BoundingBox {
        x_min: -0x1000_0000i32,
        y_min: -0x1000_0000i32,
        x_max: 0x1000_0000,
        y_max: 0x1000_0000,
    }
}

/// The clip box reported for a glyph: its resolved clip record, or the
/// conservative default when the clip list has none for it.
pub open spec fn clip_box_spec(t: PaintTable, g: GlyphId) -> BoundingBox {
    match find_clip_from(t.clips@, g, 0) {
        Option::Some(i) => {
            let c = t.clips@[i];
            BoundingBox {
                x_min: resolve_spec(t, c.x_min) as i32,
                y_min: resolve_spec(t, c.y_min) as i32,
                x_max: resolve_spec(t, c.x_max) as i32,
                y_max: resolve_spec(t, c.y_max) as i32,
            }
        },
        Option::None => default_box_spec(),
    }
}

/// The full evaluation of one glyph, from an empty context: the version-0
/// layer list for a version-0 table, else the glyph's version-1 paint graph
/// with its root marked visited, falling back to version 0 when the glyph
/// has no version-1 entry.
pub open spec fn load_spec<P: PaletteLookup + ?Sized, O: OutlineSource + ?Sized>(
    t: PaintTable,
    p: &P,
    o: &O,
    g: GlyphId,
) -> Result<CtxSnap, Error> {
    if t.version == 0 {
        load_v0_spec(t, p, o, empty_snap(), g)
    } else {
        match find_base_v1(t, g) {
            Option::Some(i) => eval_paint_spec(
                t,
                p,
                o,
                empty_snap(),
                seq![t.v1_glyphs@[i].paint],
                t.v1_glyphs@[i].paint as int,
                MAX_DEPTH as nat,
            ),
            Option::None => load_v0_spec(t, p, o, empty_snap(), g),
        }
    }
}

/// Evaluates the paint graphs of a color table: one instance borrows the
/// table for the duration of evaluation and drives one reusable [`Context`].
pub struct Scaler<'a> {
    table: &'a PaintTable,
}

impl<'a> Scaler<'a> {
    /// The table under evaluation.
    pub closed spec fn table_spec(&self) -> PaintTable {
        *self.table
    }

    /// Creates a scaler over a resolved color table.
    pub fn new(table: &'a PaintTable) -> (r: Scaler<'a>)
        ensures
            r.table_spec() == *table,
    {
        Scaler { table }
    }

    /// Finds the version-0 base record for a glyph by binary search.
    fn find_v0(&self, g: GlyphId) -> (r: Option<usize>)
        requires
            table_wf(self.table_spec()),
        ensures
            match find_base_v0(self.table_spec(), g) {
                Option::Some(i) => r == Option::Some(i as usize) && 0 <= i < self.table_spec().v0_glyphs@.len() && i <= usize::MAX,
                Option::None => r == Option::<usize>::None,
            },
    {
        let s = &self.table.v0_glyphs;
        let ghost sv = s@;
        let mut lo: usize = 0;
        let mut hi: usize = s.len();
        while lo < hi
            invariant
                0 <= lo <= hi <= sv.len(),
                sv == s@,
                sv == self.table_spec().v0_glyphs@,
                forall|j: int| 0 <= j < lo ==> (#[trigger] sv[j]).glyph_id < g,
                forall|j: int| hi <= j < sv.len() ==> (#[trigger] sv[j]).glyph_id > g,
                table_wf(self.table_spec()),
            decreases hi - lo,
        {
            let mid = lo + (hi - lo) / 2;
            let mg = s[mid].glyph_id;

            if mg < g {
                proof {
                    assert forall|j: int| 0 <= j < mid + 1 implies (#[trigger] sv[j]).glyph_id
                        < g by {
                        if j < mid {
                            assert((self.table_spec().v0_glyphs@[j]).glyph_id < (
                            self.table_spec().v0_glyphs@[mid as int]).glyph_id);
                        }
                    }
                }
                lo = mid + 1;
            } else if mg > g {
                proof {
                    assert forall|j: int| mid <= j < sv.len() implies (#[trigger] sv[j]).glyph_id
                        > g by {
                        if j > mid {
                            assert((self.table_spec().v0_glyphs@[mid as int]).glyph_id < (
                            self.table_spec().v0_glyphs@[j]).glyph_id);
                        }
                    }
                }
                hi = mid;
            } else {
                proof {
                    lemma_v0_match_at(sv, g, mid as int, 0);
                }
                return Option::Some(mid);
            }
        }
        proof {
            assert forall|j: int| 0 <= j < sv.len() implies (#[trigger] sv[j]).glyph_id != g by {
                if j < lo {
                } else {
                    assert(sv[j].glyph_id > g);
                }
            }
            lemma_v0_no_match(sv, g, 0);
        }
        Option::None
    }

    /// Finds the version-1 base record for a glyph by binary search.
    fn find_v1(&self, g: GlyphId) -> (r: Option<usize>)
        requires
            table_wf(self.table_spec()),
        ensures
            match find_base_v1(self.table_spec(), g) {
                Option::Some(i) => r == Option::Some(i as usize) && 0 <= i < self.table_spec().v1_glyphs@.len() && i <= usize::MAX,
                Option::None => r == Option::<usize>::None,
            },
    {
        let s = &self.table.v1_glyphs;
        let ghost sv = s@;
        let mut lo: usize = 0;
        let mut hi: usize = s.len();
        while lo < hi
            invariant
                0 <= lo <= hi <= sv.len(),
                sv == s@,
                sv == self.table_spec().v1_glyphs@,
                forall|j: int| 0 <= j < lo ==> (#[trigger] sv[j]).glyph_id < g,
                forall|j: int| hi <= j < sv.len() ==> (#[trigger] sv[j]).glyph_id > g,
                table_wf(self.table_spec()),
            decreases hi - lo,
        {
            let mid = lo + (hi - lo) / 2;
            let mg = s[mid].glyph_id;

            if mg < g {
                proof {
                    assert forall|j: int| 0 <= j < mid + 1 implies (#[trigger] sv[j]).glyph_id
                        < g by {
                        if j < mid {
                            assert((self.table_spec().v1_glyphs@[j]).glyph_id < (
                            self.table_spec().v1_glyphs@[mid as int]).glyph_id);
                        }
                    }
                }
                lo = mid + 1;
            } else if mg > g {
                proof {
                    assert forall|j: int| mid <= j < sv.len() implies (#[trigger] sv[j]).glyph_id
                        > g by {
                        if j > mid {
                            assert((self.table_spec().v1_glyphs@[mid as int]).glyph_id < (
                            self.table_spec().v1_glyphs@[j]).glyph_id);
                        }
                    }
                }
                hi = mid;
            } else {
                proof {
                    lemma_v1_match_at(sv, g, mid as int, 0);
                }
                return Option::Some(mid);
            }
        }
        proof {
            assert forall|j: int| 0 <= j < sv.len() implies (#[trigger] sv[j]).glyph_id != g by {
                if j < lo {
                } else {
                    assert(sv[j].glyph_id > g);
                }
            }
            lemma_v1_no_match(sv, g, 0);
        }
        Option::None
    }

    /// Computes the resolved matrix of one transform wrapper.
    fn node_matrix(&self, node: &PaintNode) -> (r: Transform)
        requires
            is_transform_node(*node),
        ensures
            r == node_matrix_spec(self.table_spec(), *node),
    {
        match node {
            PaintNode::Matrix { xx, yx, xy, yy, dx, dy, .. } => Transform {
                xx: self.table.resolve(*xx),
                yx: self.table.resolve(*yx),
                xy: self.table.resolve(*xy),
                yy: self.table.resolve(*yy),
                dx: self.table.resolve(*dx),
                dy: self.table.resolve(*dy),
            },
            PaintNode::Translate { dx, dy, .. } => Transform::translate(
                self.table.resolve(*dx),
                self.table.resolve(*dy),
            ),
            PaintNode::Scale { sx, sy, center, .. } => self.maybe_around(
                Transform::scale(self.table.resolve(*sx), self.table.resolve(*sy)),
                center,
            ),
            PaintNode::Rotate { angle, center, .. } => self.maybe_around(
                Transform::rotate(self.table.resolve(*angle)),
                center,
            ),
            PaintNode::Skew { x_angle, y_angle, center, .. } => self.maybe_around(
                Transform::skew(
                    sat_neg(self.table.resolve(*x_angle)),
                    self.table.resolve(*y_angle),
                ),
                center,
            ),
            _ => Transform::identity(),
        }
    }

    /// Conjugates a matrix about an optional resolved center.
    fn maybe_around(&self, m: Transform, center: &Option<VarPoint>) -> (r: Transform)
        ensures
            r == maybe_around_spec(self.table_spec(), m, *center),
    {
        match center {
            Option::None => m,
            Option::Some(c) => m.around_center(
                self.table.resolve(c.x),
                self.table.resolve(c.y),
            ),
        }
    }

    /// Strips and composes the chain of transform wrappers starting at a
    /// paint index.
    fn flatten(&self, ix: u32, acc: Option<Transform>, fuel: u32) -> (r: Result<
        (Option<Transform>, u32),
        Error,
    >)
        ensures
            match flatten_spec(self.table_spec(), ix as int, acc, fuel as nat) {
                Ok(flat) => r matches Ok(rp) && rp.0 == flat.0 && rp.1 as int == flat.1,
                Err(e) => r == Err::<(Option<Transform>, u32), Error>(e),
            },
        decreases fuel,
    {
        let n = self.table.paints.len();
        if !((ix as usize) < n) {
            return Err(Error::ReadError);
        }
        let node = &self.table.paints[ix as usize];
        let is_tr = match node {
            PaintNode::Matrix { .. } => true,
            PaintNode::Translate { .. } => true,
            PaintNode::Scale { .. } => true,
            PaintNode::Rotate { .. } => true,
            PaintNode::Skew { .. } => true,
            _ => false,
        };
        if is_tr {
            if fuel == 0 {
                return Err(Error::DepthLimitExceeded);
            }
            let tr = self.node_matrix(node);
            let acc2 = match acc {
                Option::None => Option::Some(tr),
                Option::Some(a) => Option::Some(a.mul(&tr)),
            };
            let child = match node {
                PaintNode::Matrix { paint, .. } => *paint,
                PaintNode::Translate { paint, .. } => *paint,
                PaintNode::Scale { paint, .. } => *paint,
                PaintNode::Rotate { paint, .. } => *paint,
                PaintNode::Skew { paint, .. } => *paint,
                _ => 0,
            };
            self.flatten(child, acc2, fuel - 1)
        } else {
            Ok((acc, ix))
        }
    }
}

/// Extending the stop list preserves context well-formedness.
proof fn lemma_wf_stops_extend(m: CtxSnap, ext: Seq<ColorStop>)
    requires
        ctx_wf(m),
    ensures
        ctx_wf(CtxSnap { stops: m.stops + ext, ..m }),
{
    let m2 = CtxSnap { stops: m.stops + ext, ..m };
    assert forall|i: int| 0 <= i < m2.paths.len() implies path_data_wf(m2, #[trigger] m2.paths[i])
    by {
        assert(path_data_wf(m, m.paths[i]));
    }
    assert forall|i: int| 0 <= i < m2.brushes.len() implies brush_data_wf(
        m2,
        (#[trigger] m2.brushes[i]).brush,
    ) by {
        assert(brush_data_wf(m, m.brushes[i].brush));
    }
    assert forall|i: int| 0 <= i < m2.commands.len() implies command_wf(
        m2,
        #[trigger] m2.commands[i],
    ) by {
        assert(command_wf(m, m.commands[i]));
    }
}

/// Appending a command whose indices are in range preserves context
/// well-formedness.
proof fn lemma_wf_push_command(m: CtxSnap, c: Command)
    requires
        ctx_wf(m),
        command_wf(m, c),
    ensures
        ctx_wf(push_cmd_snap(m, c)),
{
    let m2 = push_cmd_snap(m, c);
    assert forall|i: int| 0 <= i < m2.paths.len() implies path_data_wf(m2, #[trigger] m2.paths[i])
    by {
        assert(path_data_wf(m, m.paths[i]));
    }
    assert forall|i: int| 0 <= i < m2.brushes.len() implies brush_data_wf(
        m2,
        (#[trigger] m2.brushes[i]).brush,
    ) by {
        assert(brush_data_wf(m, m.brushes[i].brush));
    }
    assert forall|i: int| 0 <= i < m2.commands.len() implies command_wf(
        m2,
        #[trigger] m2.commands[i],
    ) by {
        if i < m.commands.len() {
            assert(command_wf(m, m.commands[i]));
        }
    }
}

/// Pushing a transform command, if one is pending, preserves context
/// well-formedness.
proof fn lemma_wf_push_tr(m: CtxSnap, tr: Option<Transform>)
    requires
        ctx_wf(m),
    ensures
        ctx_wf(push_tr_snap(m, tr)),
        ctx_wf(pop_tr_snap(m, tr)),
{
    match tr {
        Option::None => {},
        Option::Some(x) => {
            lemma_wf_push_command(m, Command::PushTransform(x));
            lemma_wf_push_command(m, Command::PopTransform);
            assert(push_tr_snap(m, tr) =~~= push_cmd_snap(m, Command::PushTransform(x)));
            assert(pop_tr_snap(m, tr) =~~= push_cmd_snap(m, Command::PopTransform));
        },
    }
}

/// A successful flatten yields an index into the arena whose node is not a
/// transform wrapper.
proof fn lemma_flatten_ok(t: PaintTable, ix: int, acc: Option<Transform>, fuel: nat)
    ensures
        match flatten_spec(t, ix, acc, fuel) {
            Ok(f) => 0 <= f.1 < t.paints@.len() && !is_transform_node(t.paints@[f.1]),
            Err(_) => true,
        },
    decreases fuel,
{
    if 0 <= ix < t.paints@.len() {
        let node = t.paints@[ix];
        if is_transform_node(node) && fuel > 0 {
            let tr = node_matrix_spec(t, node);
            let acc2 = match acc {
                Option::None => Option::Some(tr),
                Option::Some(a) => Option::Some(crate::transform::mul_spec(a, tr)),
            };
            lemma_flatten_ok(t, transform_child(node) as int, acc2, (fuel - 1) as nat);
        }
    }
}

impl<'a> Scaler<'a> {
    /// Emits `PushTransform` if a composed matrix is pending.
    fn maybe_push_transform(&self, ctx: &mut Context, tr: &Option<Transform>)
        ensures
            final(ctx)@ == push_tr_snap(old(ctx)@, *tr),
            final(ctx).blacklist_view() == old(ctx).blacklist_view(),
            ctx_wf(old(ctx)@) ==> ctx_wf(final(ctx)@),
    {
        proof {
            if ctx_wf(ctx@) {
                lemma_wf_push_tr(ctx@, *tr);
            }
        }
        match tr {
            Option::Some(x) => ctx.push_command(Command::PushTransform(*x)),
            Option::None => {},
        }
    }

    /// Emits the matching `PopTransform` if a matrix was pushed.
    fn maybe_pop_transform(&self, ctx: &mut Context, tr: &Option<Transform>)
        ensures
            final(ctx)@ == pop_tr_snap(old(ctx)@, *tr),
            final(ctx).blacklist_view() == old(ctx).blacklist_view(),
            ctx_wf(old(ctx)@) ==> ctx_wf(final(ctx)@),
    {
        proof {
            if ctx_wf(ctx@) {
                lemma_wf_push_tr(ctx@, *tr);
            }
        }
        match tr {
            Option::Some(_) => ctx.push_command(Command::PopTransform),
            Option::None => {},
        }
    }

    /// Resolves a variable point for the current instance.
    fn resolve_point(&self, p: &VarPoint) -> (r: FixedPoint)
        ensures
            r == resolve_point_spec(self.table_spec(), *p),
    {
        FixedPoint { x: self.table.resolve(p.x), y: self.table.resolve(p.y) }
    }

    /// Resolves a brush-shaped paint node into brush data, appending its
    /// resolved color stops to the context. Structural and transform nodes
    /// yield `None` and leave the context unchanged.
    fn load_brush_paint<P: PaletteLookup + ?Sized>(
        &self,
        ctx: &mut Context,
        palette: &P,
        ix: u32,
    ) -> (r: Option<BrushData>)
        requires
            (ix as int) < self.table_spec().paints@.len(),
        ensures
            final(ctx).blacklist_view() == old(ctx).blacklist_view(),
            match load_brush_spec(
                self.table_spec(),
                palette,
                old(ctx)@.stops.len() as int,
                self.table_spec().paints@[ix as int],
            ) {
                Option::Some(bs) => r == Option::Some(bs.0) && final(ctx)@ == (CtxSnap {
                    stops: old(ctx)@.stops + bs.1,
                    ..old(ctx)@
                }) && brush_data_wf(final(ctx)@, bs.0),
                Option::None => r == Option::<BrushData>::None && final(ctx)@ == old(ctx)@,
            },
            ctx_wf(old(ctx)@) ==> ctx_wf(final(ctx)@),
    {
        let ghost m0 = ctx@;
        let node = &self.table.paints[ix as usize];
        match node {
            PaintNode::Solid { palette_index, alpha } => {
                let c = apply_alpha(palette.color(*palette_index), self.table.resolve(*alpha));
                proof {
                    assert(m0.stops + Seq::<ColorStop>::empty() =~= m0.stops);
                    assert(ctx@ =~= (CtxSnap { stops: m0.stops + Seq::<ColorStop>::empty(), ..m0 }));
                }
                Option::Some(BrushData::Solid(c))
            },
            PaintNode::LinearGradient { p0, p1, p2, stops, extend } => {
                let range = ctx.push_stops(self.table, palette, stops);
                let q0 = self.resolve_point(p0);
                let q1 = self.resolve_point(p1);
                let q2 = self.resolve_point(p2);
                let ends = linear_endpoints(q0, q1, q2);
                proof {
                    if ctx_wf(m0) {
                        lemma_wf_stops_extend(
                            m0,
                            resolve_stops_spec(self.table_spec(), palette, stops@),
                        );
                    }
                }
                Option::Some(
                    BrushData::Gradient(
                        GradientData {
                            kind: GradientKind::Linear { start: ends.0, end: ends.1 },
                            extend: *extend,
                            stop_start: range.0,
                            stop_end: range.1,
                        },
                    ),
                )
            },
            PaintNode::RadialGradient { c0, r0, c1, r1, stops, extend } => {
                let range = ctx.push_stops(self.table, palette, stops);
                let kind = GradientKind::Radial {
                    start_center: self.resolve_point(c0),
                    start_radius: self.table.resolve(*r0),
                    end_center: self.resolve_point(c1),
                    end_radius: self.table.resolve(*r1),
                };
                proof {
                    if ctx_wf(m0) {
                        lemma_wf_stops_extend(
                            m0,
                            resolve_stops_spec(self.table_spec(), palette, stops@),
                        );
                    }
                }
                Option::Some(
                    BrushData::Gradient(
                        GradientData {
                            kind,
                            extend: *extend,
                            stop_start: range.0,
                            stop_end: range.1,
                        },
                    ),
                )
            },
            PaintNode::SweepGradient { center, start_angle, end_angle, stops, extend } => {
                let range = ctx.push_stops(self.table, palette, stops);
                let kind = GradientKind::Sweep {
                    center: self.resolve_point(center),
                    start_angle: self.table.resolve(*start_angle),
                    end_angle: self.table.resolve(*end_angle),
                };
                proof {
                    if ctx_wf(m0) {
                        lemma_wf_stops_extend(
                            m0,
                            resolve_stops_spec(self.table_spec(), palette, stops@),
                        );
                    }
                }
                Option::Some(
                    BrushData::Gradient(
                        GradientData {
                            kind,
                            extend: *extend,
                            stop_start: range.0,
                            stop_end: range.1,
                        },
                    ),
                )
            },
            _ => Option::None,
        }
    }

    /// Recursively evaluates one paint node: strips its transform chain,
    /// dispatches on the node's kind, and appends commands to the context.
    #[verifier::rlimit(100)]
    fn load_paint<P: PaletteLookup + ?Sized, O: OutlineSource + ?Sized>(
        &self,
        ctx: &mut Context,
        palette: &P,
        outlines: &O,
        ix: u32,
        fuel: u32,
    ) -> (r: Result<(), Error>)
        requires
            table_wf(self.table_spec()),
        ensures
            match eval_paint_spec(
                self.table_spec(),
                palette,
                outlines,
                old(ctx)@,
                old(ctx).blacklist_view(),
                ix as int,
                fuel as nat,
            ) {
                Ok(m2) => r == Ok::<(), Error>(()) && final(ctx)@ == m2 && final(ctx).blacklist_view() == old(ctx).blacklist_view() && (ctx_wf(old(ctx)@) ==> ctx_wf(
                    m2,
                )),
                Err(e) => r == Err::<(), Error>(e),
            },
        decreases fuel, self.table_spec().v1_layers@.len() + 1, 1int,
    {
        let ghost m0 = ctx@;
        let ghost bl0 = ctx.blacklist_view();
        proof {
            lemma_flatten_ok(self.table_spec(), ix as int, Option::None, fuel as nat);
        }
        let flat = match self.flatten(ix, Option::None, fuel) {
            Ok(f) => f,
            Err(e) => {
                return Err(e);
            },
        };
        let tr = flat.0;
        let nix = flat.1;
        let node = &self.table.paints[nix as usize];
        match node {
            PaintNode::Layers { first, count } => {
                let first = *first;
                let count = *count;
                if first as u64 + count as u64 > self.table.v1_layers.len() as u64 {
                    return Err(Error::ReadError);
                }
                self.maybe_push_transform(ctx, &tr);
                match self.load_layers(ctx, palette, outlines, first as u64, count as u64, fuel) {
                    Err(e) => {
                        return Err(e);
                    },
                    Ok(_) => {},
                }
                self.maybe_pop_transform(ctx, &tr);
                Ok(())
            },
            PaintNode::ColorGlyph { glyph_id } => {
                let glyph_id = *glyph_id;
                let bi = match self.find_v1(glyph_id) {
                    Option::Some(b) => b,
                    Option::None => {
                        return Err(Error::GlyphNotFound(glyph_id));
                    },
                };
                let cid = self.table.v1_glyphs[bi].paint;
                self.maybe_push_transform(ctx, &tr);
                if ctx.blacklist_contains(cid) {
                    self.maybe_pop_transform(ctx, &tr);
                    Ok(())
                } else if fuel == 0 {
                    Err(Error::DepthLimitExceeded)
                } else {
                    ctx.blacklist_push(cid);
                    match self.load_paint(ctx, palette, outlines, cid, fuel - 1) {
                        Err(e) => {
                            return Err(e);
                        },
                        Ok(_) => {},
                    }
                    ctx.blacklist_pop();
                    proof {
                        assert(bl0.push(cid).drop_last() =~= bl0);
                    }
                    self.maybe_pop_transform(ctx, &tr);
                    Ok(())
                }
            },
            PaintNode::Composite { backdrop, mode, source } => {
                let backdrop = *backdrop;
                let mode = *mode;
                let source = *source;
                if fuel == 0 {
                    return Err(Error::DepthLimitExceeded);
                }
                self.maybe_push_transform(ctx, &tr);
                proof {
                    if ctx_wf(ctx@) {
                        lemma_wf_push_command(ctx@, Command::PushLayer(Option::None));
                    }
                }
                ctx.push_command(Command::PushLayer(Option::None));
                match self.load_paint(ctx, palette, outlines, backdrop, fuel - 1) {
                    Err(e) => {
                        return Err(e);
                    },
                    Ok(_) => {},
                }
                proof {
                    if ctx_wf(ctx@) {
                        lemma_wf_push_command(ctx@, Command::PushLayer(Option::Some(mode)));
                    }
                }
                ctx.push_command(Command::PushLayer(Option::Some(mode)));
                match self.load_paint(ctx, palette, outlines, source, fuel - 1) {
                    Err(e) => {
                        return Err(e);
                    },
                    Ok(_) => {},
                }
                proof {
                    if ctx_wf(ctx@) {
                        lemma_wf_push_command(ctx@, Command::PopLayer);
                        lemma_wf_push_command(
                            push_cmd_snap(ctx@, Command::PopLayer),
                            Command::PopLayer,
                        );
                    }
                }
                ctx.push_command(Command::PopLayer);
                ctx.push_command(Command::PopLayer);
                self.maybe_pop_transform(ctx, &tr);
                Ok(())
            },
            PaintNode::Glyph { glyph_id, paint } => {
                let glyph_id = *glyph_id;
                let child = *paint;
                self.maybe_push_transform(ctx, &tr);
                let path_ix = match ctx.push_path(glyph_id, outlines) {
                    Ok(i) => i,
                    Err(e) => {
                        return Err(e);
                    },
                };
                proof {
                    lemma_flatten_ok(self.table_spec(), child as int, Option::None, fuel as nat);
                }
                let cflat = match self.flatten(child, Option::None, fuel) {
                    Ok(f) => f,
                    Err(e) => {
                        return Err(e);
                    },
                };
                let ctr = cflat.0;
                let cix = cflat.1;
                match self.load_brush_paint(ctx, palette, cix) {
                    Option::Some(bd) => {
                        let bix = ctx.push_brush(bd, ctr);
                        proof {
                            if ctx_wf(ctx@) {
                                lemma_wf_push_command(
                                    ctx@,
                                    Command::FillPath { glyph_id, path: path_ix, brush: bix },
                                );
                            }
                        }
                        ctx.push_command(
                            Command::FillPath { glyph_id, path: path_ix, brush: bix },
                        );
                        self.maybe_pop_transform(ctx, &tr);
                        Ok(())
                    },
                    Option::None => {
                        if fuel == 0 {
                            return Err(Error::DepthLimitExceeded);
                        }
                        proof {
                            if ctx_wf(ctx@) {
                                lemma_wf_push_command(
                                    ctx@,
                                    Command::PushClip { glyph_id, path: path_ix },
                                );
                            }
                        }
                        ctx.push_command(Command::PushClip { glyph_id, path: path_ix });
                        self.maybe_push_transform(ctx, &ctr);
                        match self.load_paint(ctx, palette, outlines, cix, fuel - 1) {
                            Err(e) => {
                                return Err(e);
                            },
                            Ok(_) => {},
                        }
                        self.maybe_pop_transform(ctx, &ctr);
                        proof {
                            if ctx_wf(ctx@) {
                                lemma_wf_push_command(ctx@, Command::PopClip);
                            }
                        }
                        ctx.push_command(Command::PopClip);
                        self.maybe_pop_transform(ctx, &tr);
                        Ok(())
                    },
                }
            },
            _ => {
                match self.load_brush_paint(ctx, palette, nix) {
                    Option::Some(bd) => {
                        let bix = ctx.push_brush(bd, tr);
                        proof {
                            if ctx_wf(ctx@) {
                                lemma_wf_push_command(ctx@, Command::Fill(bix));
                            }
                        }
                        ctx.push_command(Command::Fill(bix));
                        Ok(())
                    },
                    Option::None => Err(Error::ReadError),
                }
            },
        }
    }

    /// Evaluates a run of version-1 layers in ascending order, skipping any
    /// whose paint is already on the path from the root.
    fn load_layers<P: PaletteLookup + ?Sized, O: OutlineSource + ?Sized>(
        &self,
        ctx: &mut Context,
        palette: &P,
        outlines: &O,
        first: u64,
        count: u64,
        fuel: u32,
    ) -> (r: Result<(), Error>)
        requires
            table_wf(self.table_spec()),
        ensures
            match eval_layers_spec(
                self.table_spec(),
                palette,
                outlines,
                old(ctx)@,
                old(ctx).blacklist_view(),
                first as int,
                count as nat,
                fuel as nat,
            ) {
                Ok(m2) => r == Ok::<(), Error>(()) && final(ctx)@ == m2 && final(ctx).blacklist_view() == old(ctx).blacklist_view() && (ctx_wf(old(ctx)@) ==> ctx_wf(
                    m2,
                )),
                Err(e) => r == Err::<(), Error>(e),
            },
        decreases fuel, count, 0int,
    {
        let ghost bl0 = ctx.blacklist_view();
        if count == 0 {
            return Ok(());
        }
        if !(first < self.table.v1_layers.len() as u64) {
            return Err(Error::ReadError);
        }
        let cid = self.table.v1_layers[first as usize];
        if ctx.blacklist_contains(cid) {
        } else if fuel == 0 {
            return Err(Error::DepthLimitExceeded);
        } else {
            ctx.blacklist_push(cid);
            match self.load_paint(ctx, palette, outlines, cid, fuel - 1) {
                Err(e) => {
                    return Err(e);
                },
                Ok(_) => {},
            }
            ctx.blacklist_pop();
            proof {
                assert(bl0.push(cid).drop_last() =~= bl0);
            }
        }
        self.load_layers(ctx, palette, outlines, first + 1, count - 1, fuel)
    }

    /// Evaluates a run of version-0 layers in layer order: each fills its
    /// glyph's outline with its palette color.
    fn load_v0_layers<P: PaletteLookup + ?Sized, O: OutlineSource + ?Sized>(
        &self,
        ctx: &mut Context,
        palette: &P,
        outlines: &O,
        first: u64,
        count: u64,
    ) -> (r: Result<(), Error>)
        ensures
            match eval_v0_layers_spec(
                self.table_spec(),
                palette,
                outlines,
                old(ctx)@,
                first as int,
                count as nat,
            ) {
                Ok(m2) => r == Ok::<(), Error>(()) && final(ctx)@ == m2 && final(ctx).blacklist_view() == old(ctx).blacklist_view() && (ctx_wf(old(ctx)@) ==> ctx_wf(
                    m2,
                )),
                Err(e) => r == Err::<(), Error>(e),
            },
        decreases count,
    {
        if count == 0 {
            return Ok(());
        }
        if !(first < self.table.v0_layers.len() as u64) {
            return Err(Error::ReadError);
        }
        let lr = self.table.v0_layers[first as usize];
        let ghost m1 = ctx@;
        let path_ix = match ctx.push_path(lr.glyph_id, outlines) {
            Ok(i) => i,
            Err(e) => {
                return Err(e);
            },
        };
        let ghost m2 = ctx@;
        let color = palette.color(lr.palette_index);
        let bix = ctx.push_brush(BrushData::Solid(color), Option::None);
        proof {
            if ctx_wf(ctx@) {
                lemma_wf_push_command(
                    ctx@,
                    Command::FillPath { glyph_id: lr.glyph_id, path: path_ix, brush: bix },
                );
            }
        }
        ctx.push_command(
            Command::FillPath { glyph_id: lr.glyph_id, path: path_ix, brush: bix },
        );
        proof {
            assert(m2.stops + Seq::<ColorStop>::empty() =~= m2.stops);
            assert(ctx@ =~= fill_brush_snap(
                m2,
                BrushData::Solid(palette.color_spec(lr.palette_index)),
                Seq::<ColorStop>::empty(),
                Option::<Transform>::None,
                Command::FillPath {
                    glyph_id: lr.glyph_id,
                    path: path_ix as usize,
                    brush: m2.brushes.len() as usize,
                },
            ));
        }
        self.load_v0_layers(ctx, palette, outlines, first + 1, count - 1)
    }

    /// Loads a glyph from the version-0 layer list.
    fn load_v0<P: PaletteLookup + ?Sized, O: OutlineSource + ?Sized>(
        &self,
        ctx: &mut Context,
        palette: &P,
        outlines: &O,
        glyph_id: GlyphId,
    ) -> (r: Result<(), Error>)
        requires
            table_wf(self.table_spec()),
        ensures
            match load_v0_spec(self.table_spec(), palette, outlines, old(ctx)@, glyph_id) {
                Ok(m2) => r == Ok::<(), Error>(()) && final(ctx)@ == m2 && final(ctx).blacklist_view() == old(ctx).blacklist_view() && (ctx_wf(old(ctx)@) ==> ctx_wf(
                    m2,
                )),
                Err(e) => r == Err::<(), Error>(e) && (find_base_v0(
                    self.table_spec(),
                    glyph_id,
                ) is None ==> final(ctx)@ == old(ctx)@ && final(ctx).blacklist_view() == old(
                    ctx,
                ).blacklist_view()),
            },
    {
        let rec_ix = match self.find_v0(glyph_id) {
            Option::Some(i) => i,
            Option::None => {
                return Err(Error::GlyphNotFound(glyph_id));
            },
        };
        let rec = self.table.v0_glyphs[rec_ix];
        self.load_v0_layers(
            ctx,
            palette,
            outlines,
            rec.first_layer as u64,
            rec.num_layers as u64,
        )
    }

    /// Looks up the clip box for a glyph, resolving its varying sides, or
    /// reports the conservative default box.
    fn clip_box(&self, glyph_id: GlyphId) -> (r: BoundingBox)
        ensures
            r == clip_box_spec(self.table_spec(), glyph_id),
    {
        let n = self.table.clips.len();
        let mut i: usize = 0;
        while i < n
            invariant
                0 <= i <= n,
                n == self.table_spec().clips@.len(),
                find_clip_from(self.table_spec().clips@, glyph_id, 0) == find_clip_from(
                    self.table_spec().clips@,
                    glyph_id,
                    i as int,
                ),
            decreases n - i,
        {
            let c = self.table.clips[i];
            if c.start_glyph <= glyph_id && glyph_id <= c.end_glyph {
                return BoundingBox {
                    x_min: self.table.resolve(c.x_min),
                    y_min: self.table.resolve(c.y_min),
                    x_max: self.table.resolve(c.x_max),
                    y_max: self.table.resolve(c.y_max),
                };
            }
            i = i + 1;
        }
        BoundingBox {
            x_min: -0x1000_0000,
            y_min: -0x1000_0000,
            x_max: 0x1000_0000,
            y_max: 0x1000_0000,
        }
    }

    /// Replays the recorded command list against the sink in order,
    /// resolving brush and path indices to concrete values.
    fn replay<S: ColorPen>(&self, ctx: &Context, pen: &mut S)
        requires
            ctx_wf(ctx@),
    {
        let cmds = ctx.commands();
        let n = cmds.len();
        let mut i: usize = 0;
        while i < n
            invariant
                0 <= i <= n,
                n == cmds@.len(),
                cmds@ == ctx@.commands,
                ctx_wf(ctx@),
            decreases n - i,
        {
            proof {
                assert(command_wf(ctx@, ctx@.commands[i as int]));
            }
            let cmd = cmds[i];
            match cmd {
                Command::PushTransform(t) => pen.push_transform(t),
                Command::PopTransform => pen.pop_transform(),
                Command::PushClip { glyph_id, path } => {
                    let p = ctx.path(path);
                    pen.push_clip(glyph_id, &p);
                },
                Command::PopClip => pen.pop_clip(),
                Command::PushLayer(mode) => pen.push_layer(mode),
                Command::PopLayer => pen.pop_layer(),
                Command::Fill(brush) => {
                    let b = ctx.brush(brush);
                    pen.fill(&b.0, b.1);
                },
                Command::FillPath { glyph_id, path, brush } => {
                    let p = ctx.path(path);
                    let b = ctx.brush(brush);
                    pen.fill_path(glyph_id, &p, &b.0, b.1);
                },
            }
            i = i + 1;
        }
    }

    /// Loads a color glyph: resets the context, evaluates the glyph's paint
    /// graph (or its version-0 layer list), reports the clip box, and
    /// replays the recorded commands against the sink. On an error no
    /// command is replayed, and a glyph absent from every base table
    /// leaves the context empty. The command list produced is exactly
    /// [`load_spec`] of the table, the glyph and the sources, so two loads
    /// of the same glyph with the same inputs produce identical command
    /// lists.
    pub fn load<P: PaletteLookup, O: OutlineSource, S: ColorPen>(
        &self,
        context: &mut Context,
        glyph_id: GlyphId,
        palette: &P,
        outlines: &O,
        pen: &mut S,
    ) -> (r: Result<(), Error>)
        requires
            table_wf(self.table_spec()),
        ensures
            match load_spec(self.table_spec(), palette, outlines, glyph_id) {
                Ok(m) => r == Ok::<(), Error>(()) && final(context)@ == m && ctx_wf(m),
                Err(e) => r == Err::<(), Error>(e) && (find_base_v0(
                    self.table_spec(),
                    glyph_id,
                ) is None && (self.table_spec().version == 0 || find_base_v1(
                    self.table_spec(),
                    glyph_id,
                ) is None) ==> final(context)@ == empty_snap()),
            },
    {
        context.reset();
        proof {
            assert(ctx_wf(empty_snap()));
        }
        if self.table.version == 0 {
            match self.load_v0(context, palette, outlines, glyph_id) {
                Err(e) => {
                    return Err(e);
                },
                Ok(_) => {},
            }
        } else {
            match self.find_v1(glyph_id) {
                Option::Some(bi) => {
                    let root = self.table.v1_glyphs[bi].paint;
                    context.blacklist_push(root);
                    proof {
                        assert(Seq::<u32>::empty().push(root) =~= seq![root]);
                    }
                    match self.load_paint(context, palette, outlines, root, MAX_DEPTH) {
                        Err(e) => {
                            return Err(e);
                        },
                        Ok(_) => {},
                    }
                },
                Option::None => {
                    match self.load_v0(context, palette, outlines, glyph_id) {
                        Err(e) => {
                            return Err(e);
                        },
                        Ok(_) => {},
                    }
                },
            }
        }
        let bounds = self.clip_box(glyph_id);
        pen.bounds(bounds);
        self.replay(context, pen);
        Ok(())
    }
}

/// The stack disciplines of the command stream.
#[derive(Copy, Clone, PartialEq, Eq, Structural, Debug)]
pub enum StackKind {
    Transform,
    Clip,
    Layer,
}

/// One command's effect on a stack kind: one for its push, minus one for
/// its pop, zero otherwise.
pub open spec fn cmd_bal(c: Command, k: StackKind) -> int {
    match c {
        Command::PushTransform(_) => if k == StackKind::Transform {
            1int
        } else {
            0int
        },
        Command::PopTransform => if k == StackKind::Transform {
            -1int
        } else {
            0int
        },
        Command::PushClip { .. } => if k == StackKind::Clip {
            1int
        } else {
            0int
        },
        Command::PopClip => if k == StackKind::Clip {
            -1int
        } else {
            0int
        },
        Command::PushLayer(_) => if k == StackKind::Layer {
            1int
        } else {
            0int
        },
        Command::PopLayer => if k == StackKind::Layer {
            -1int
        } else {
            0int
        },
        _ => 0int,
    }
}

/// The running balance of a command list for a stack kind: pushes minus
/// pops.
pub open spec fn bal(s: Seq<Command>, k: StackKind) -> int
    decreases s.len(),
{
    if s.len() == 0 {
        0
    } else {
        bal(s.drop_last(), k) + cmd_bal(s.last(), k)
    }
}

/// A balanced, well-nested command block: for every stack kind the total
/// balance is zero and no prefix dips below zero.
pub open spec fn block_ok(d: Seq<Command>) -> bool {
    &&& forall|k: StackKind| #[trigger] bal(d, k) == 0
    &&& forall|k: StackKind, i: int| 0 <= i <= d.len() ==> #[trigger] bal(d.take(i), k) >= 0
}

/// An evaluation step extends the command list by a balanced, well-nested
/// block.
pub open spec fn cmd_ext_ok(pre: Seq<Command>, post: Seq<Command>) -> bool {
    &&& pre.len() <= post.len()
    &&& post.take(pre.len() as int) == pre
    &&& block_ok(post.skip(pre.len() as int))
}

/// Balances add over concatenation.
proof fn lemma_bal_append(a: Seq<Command>, b: Seq<Command>, k: StackKind)
    ensures
        bal(a + b, k) == bal(a, k) + bal(b, k),
    decreases b.len(),
{
    if b.len() == 0 {
        assert(a + b =~= a);
    } else {
        assert((a + b).drop_last() =~= a + b.drop_last());
        assert((a + b).last() == b.last());
        lemma_bal_append(a, b.drop_last(), k);
    }
}

/// The empty block is balanced.
proof fn lemma_block_empty()
    ensures
        block_ok(Seq::<Command>::empty()),
{
    reveal_with_fuel(bal, 2);
    assert forall|k: StackKind, i: int|
        0 <= i <= Seq::<Command>::empty().len() implies #[trigger] bal(
        Seq::<Command>::empty().take(i),
        k,
    ) >= 0 by {
        assert(Seq::<Command>::empty().take(i) =~= Seq::<Command>::empty());
    }
}

/// A single command that pushes and pops nothing is a balanced block.
proof fn lemma_block_single(c: Command)
    requires
        forall|k: StackKind| cmd_bal(c, k) == 0,
    ensures
        block_ok(seq![c]),
{
    reveal_with_fuel(bal, 3);
    assert forall|k: StackKind| #[trigger] bal(seq![c], k) == 0 by {
        assert(seq![c].drop_last() =~= Seq::<Command>::empty());
        assert(seq![c].last() == c);
        assert(cmd_bal(c, k) == 0);
    }
    assert forall|k: StackKind, i: int| 0 <= i <= seq![c].len() implies #[trigger] bal(
        seq![c].take(i),
        k,
    ) >= 0 by {
        if i == 0 {
            assert(seq![c].take(0) =~= Seq::<Command>::empty());
        } else {
            assert(seq![c].take(i) =~= seq![c]);
            assert(seq![c].drop_last() =~= Seq::<Command>::empty());
            assert(seq![c].last() == c);
            assert(cmd_bal(c, k) == 0);
        }
    }
}

/// Two balanced blocks concatenate to a balanced block.
proof fn lemma_block_concat(d1: Seq<Command>, d2: Seq<Command>)
    requires
        block_ok(d1),
        block_ok(d2),
    ensures
        block_ok(d1 + d2),
{
    assert forall|k: StackKind| #[trigger] bal(d1 + d2, k) == 0 by {
        lemma_bal_append(d1, d2, k);
    }
    assert forall|k: StackKind, i: int| 0 <= i <= (d1 + d2).len() implies #[trigger] bal(
        (d1 + d2).take(i),
        k,
    ) >= 0 by {
        if i <= d1.len() {
            assert((d1 + d2).take(i) =~= d1.take(i));
        } else {
            assert((d1 + d2).take(i) =~= d1 + d2.take(i - d1.len()));
            lemma_bal_append(d1, d2.take(i - d1.len()), k);
        }
    }
}

/// A balanced block wrapped in a matching push and pop stays balanced.
proof fn lemma_block_wrap(c1: Command, d: Seq<Command>, c2: Command)
    requires
        block_ok(d),
        forall|k: StackKind| cmd_bal(c1, k) >= 0,
        forall|k: StackKind| cmd_bal(c1, k) + cmd_bal(c2, k) == 0,
    ensures
        block_ok(seq![c1] + d + seq![c2]),
{
    reveal_with_fuel(bal, 3);
    let w = seq![c1] + d + seq![c2];
    assert forall|k: StackKind| #[trigger] bal(w, k) == 0 by {
        assert(w.drop_last() =~= seq![c1] + d);
        assert(w.last() == c2);
        lemma_bal_append(seq![c1], d, k);
        assert(seq![c1].drop_last() =~= Seq::<Command>::empty());
        assert(seq![c1].last() == c1);
        assert(cmd_bal(c1, k) + cmd_bal(c2, k) == 0);
    }
    assert forall|k: StackKind, i: int| 0 <= i <= w.len() implies #[trigger] bal(w.take(i), k)
        >= 0 by {
        assert(seq![c1].drop_last() =~= Seq::<Command>::empty());
        assert(seq![c1].last() == c1);
        assert(cmd_bal(c1, k) >= 0);
        assert(cmd_bal(c1, k) + cmd_bal(c2, k) == 0);
        if i == 0 {
            assert(w.take(i) =~= Seq::<Command>::empty());
        } else if i <= d.len() + 1 {
            assert(w.take(i) =~= seq![c1] + d.take(i - 1));
            lemma_bal_append(seq![c1], d.take(i - 1), k);
        } else {
            assert(w.take(i) =~= w);
            assert(w.drop_last() =~= seq![c1] + d);
            lemma_bal_append(seq![c1], d, k);
            assert(w.last() == c2);
        }
    }
}

/// Extension by a balanced block is transitive.
proof fn lemma_ext_trans(a: Seq<Command>, b: Seq<Command>, c: Seq<Command>)
    requires
        cmd_ext_ok(a, b),
        cmd_ext_ok(b, c),
    ensures
        cmd_ext_ok(a, c),
{
    assert(c.take(a.len() as int) =~= a);
    assert(c.skip(a.len() as int) =~= b.skip(a.len() as int) + c.skip(b.len() as int));
    lemma_block_concat(b.skip(a.len() as int), c.skip(b.len() as int));
}

/// Appending one stack-neutral command is a balanced extension.
proof fn lemma_ext_neutral(s: Seq<Command>, c: Command)
    requires
        forall|k: StackKind| cmd_bal(c, k) == 0,
    ensures
        cmd_ext_ok(s, s.push(c)),
{
    lemma_block_single(c);
    assert(s.push(c).take(s.len() as int) =~= s);
    assert(s.push(c).skip(s.len() as int) =~= seq![c]);
}

/// A block framed by a pending transform's push and pop is a balanced
/// extension.
proof fn lemma_ext_tr_wrap(base: Seq<Command>, inner: Seq<Command>, tr: Option<Transform>)
    requires
        match tr {
            Option::None => cmd_ext_ok(base, inner),
            Option::Some(x) => cmd_ext_ok(base.push(Command::PushTransform(x)), inner),
        },
    ensures
        match tr {
            Option::None => cmd_ext_ok(base, inner),
            Option::Some(x) => cmd_ext_ok(base, inner.push(Command::PopTransform)),
        },
{
    match tr {
        Option::None => {},
        Option::Some(x) => {
            let c1 = Command::PushTransform(x);
            let c2 = Command::PopTransform;
            let d = inner.skip(base.len() as int + 1);
            assert forall|i: int| 0 <= i <= base.len() implies inner[i] == base.push(c1)[i] by {
                assert(inner.take(base.len() as int + 1)[i] == base.push(c1)[i]);
            }
            lemma_block_wrap(c1, d, c2);
            assert(inner.push(c2).take(base.len() as int) =~= base);
            assert(inner.push(c2).skip(base.len() as int) =~= seq![c1] + d + seq![c2]);
        },
    }
}

/// A block framed by any matching push and pop pair is a balanced
/// extension.
proof fn lemma_ext_pair_wrap(base: Seq<Command>, inner: Seq<Command>, c1: Command, c2: Command)
    requires
        cmd_ext_ok(base.push(c1), inner),
        forall|k: StackKind| cmd_bal(c1, k) >= 0,
        forall|k: StackKind| cmd_bal(c1, k) + cmd_bal(c2, k) == 0,
    ensures
        cmd_ext_ok(base, inner.push(c2)),
{
    let d = inner.skip(base.len() as int + 1);
    assert forall|i: int| 0 <= i <= base.len() implies inner[i] == base.push(c1)[i] by {
        assert(inner.take(base.len() as int + 1)[i] == base.push(c1)[i]);
    }
    lemma_block_wrap(c1, d, c2);
    assert(inner.push(c2).take(base.len() as int) =~= base);
    assert(inner.push(c2).skip(base.len() as int) =~= seq![c1] + d + seq![c2]);
}

/// Every command list extends itself by the empty block.
proof fn lemma_ext_refl(s: Seq<Command>)
    ensures
        cmd_ext_ok(s, s),
{
    lemma_block_empty();
    assert(s.take(s.len() as int) =~= s);
    assert(s.skip(s.len() as int) =~= Seq::<Command>::empty());
}

/// Paint evaluation extends the command list by a balanced, well-nested
/// block.
proof fn lemma_eval_paint_balanced<P: PaletteLookup + ?Sized, O: OutlineSource + ?Sized>(
    t: PaintTable,
    p: &P,
    o: &O,
    m: CtxSnap,
    bl: Seq<u32>,
    ix: int,
    fuel: nat,
)
    ensures
        match eval_paint_spec(t, p, o, m, bl, ix, fuel) {
            Ok(m2) => cmd_ext_ok(m.commands, m2.commands),
            Err(_) => true,
        },
    decreases fuel, t.v1_layers@.len() + 1, 1int,
{
    match flatten_spec(t, ix, Option::None, fuel) {
        Err(_) => {},
        Ok(flat) => {
            let tr = flat.0;
            let node = t.paints@[flat.1];
            let base = push_tr_snap(m, tr).commands;
            match node {
                PaintNode::Layers { first, count } => {
                    if !(first + count > t.v1_layers@.len()) {
                        lemma_eval_layers_balanced(
                            t,
                            p,
                            o,
                            push_tr_snap(m, tr),
                            bl,
                            first as int,
                            count as nat,
                            fuel,
                        );
                        match eval_layers_spec(
                            t,
                            p,
                            o,
                            push_tr_snap(m, tr),
                            bl,
                            first as int,
                            count as nat,
                            fuel,
                        ) {
                            Err(_) => {},
                            Ok(m2) => {
                                lemma_ext_tr_wrap(m.commands, m2.commands, tr);
                            },
                        }
                    }
                },
                PaintNode::ColorGlyph { glyph_id } => {
                    match find_base_v1(t, glyph_id) {
                        Option::None => {},
                        Option::Some(bi) => {
                            let cid = t.v1_glyphs@[bi].paint;
                            let m1 = push_tr_snap(m, tr);
                            if bl.contains(cid) {
                                lemma_ext_refl(m1.commands);
                                lemma_ext_tr_wrap(m.commands, m1.commands, tr);
                            } else if fuel == 0 {
                            } else {
                                lemma_eval_paint_balanced(
                                    t,
                                    p,
                                    o,
                                    m1,
                                    bl.push(cid),
                                    cid as int,
                                    (fuel - 1) as nat,
                                );
                                match eval_paint_spec(
                                    t,
                                    p,
                                    o,
                                    m1,
                                    bl.push(cid),
                                    cid as int,
                                    (fuel - 1) as nat,
                                ) {
                                    Err(_) => {},
                                    Ok(m2) => {
                                        lemma_ext_tr_wrap(m.commands, m2.commands, tr);
                                    },
                                }
                            }
                        },
                    }
                },
                PaintNode::Composite { backdrop, mode, source } => {
                    if fuel != 0 {
                        let m1 = push_cmd_snap(
                            push_tr_snap(m, tr),
                            Command::PushLayer(Option::None),
                        );
                        lemma_eval_paint_balanced(
                            t,
                            p,
                            o,
                            m1,
                            bl,
                            backdrop as int,
                            (fuel - 1) as nat,
                        );
                        match eval_paint_spec(t, p, o, m1, bl, backdrop as int, (fuel - 1) as nat) {
                            Err(_) => {},
                            Ok(m2) => {
                                let m3 = push_cmd_snap(m2, Command::PushLayer(Option::Some(mode)));
                                lemma_eval_paint_balanced(
                                    t,
                                    p,
                                    o,
                                    m3,
                                    bl,
                                    source as int,
                                    (fuel - 1) as nat,
                                );
                                match eval_paint_spec(
                                    t,
                                    p,
                                    o,
                                    m3,
                                    bl,
                                    source as int,
                                    (fuel - 1) as nat,
                                ) {
                                    Err(_) => {},
                                    Ok(m4) => {
                                        lemma_ext_pair_wrap(
                                            m2.commands,
                                            m4.commands,
                                            Command::PushLayer(Option::Some(mode)),
                                            Command::PopLayer,
                                        );
                                        lemma_ext_trans(
                                            m1.commands,
                                            m2.commands,
                                            m4.commands.push(Command::PopLayer),
                                        );
                                        lemma_ext_pair_wrap(
                                            base,
                                            m4.commands.push(Command::PopLayer),
                                            Command::PushLayer(Option::None),
                                            Command::PopLayer,
                                        );
                                        lemma_ext_tr_wrap(
                                            m.commands,
                                            m4.commands.push(Command::PopLayer).push(
                                                Command::PopLayer,
                                            ),
                                            tr,
                                        );
                                    },
                                }
                            },
                        }
                    }
                },
                PaintNode::Glyph { glyph_id, paint } => {
                    let m1 = push_tr_snap(m, tr);
                    match push_path_spec(o, m1, glyph_id) {
                        Err(_) => {},
                        Ok(pp) => {
                            let m2 = pp.0;
                            let path_ix = pp.1;
                            assert(m2.commands == m1.commands);
                            match flatten_spec(t, paint as int, Option::None, fuel) {
                                Err(_) => {},
                                Ok(cflat) => {
                                    let ctr = cflat.0;
                                    let cnode = t.paints@[cflat.1];
                                    match load_brush_spec(t, p, m2.stops.len() as int, cnode) {
                                        Option::Some(bs) => {
                                            let cmd = Command::FillPath {
                                                glyph_id,
                                                path: path_ix as usize,
                                                brush: m2.brushes.len() as usize,
                                            };
                                            lemma_ext_neutral(m2.commands, cmd);
                                            lemma_ext_tr_wrap(
                                                m.commands,
                                                m2.commands.push(cmd),
                                                tr,
                                            );
                                        },
                                        Option::None => {
                                            if fuel != 0 {
                                                let pc = Command::PushClip {
                                                    glyph_id,
                                                    path: path_ix as usize,
                                                };
                                                let m3 = push_tr_snap(
                                                    push_cmd_snap(m2, pc),
                                                    ctr,
                                                );
                                                lemma_eval_paint_balanced(
                                                    t,
                                                    p,
                                                    o,
                                                    m3,
                                                    bl,
                                                    cflat.1,
                                                    (fuel - 1) as nat,
                                                );
                                                match eval_paint_spec(
                                                    t,
                                                    p,
                                                    o,
                                                    m3,
                                                    bl,
                                                    cflat.1,
                                                    (fuel - 1) as nat,
                                                ) {
                                                    Err(_) => {},
                                                    Ok(m4) => {
                                                        lemma_ext_tr_wrap(
                                                            m2.commands.push(pc),
                                                            m4.commands,
                                                            ctr,
                                                        );
                                                        lemma_ext_pair_wrap(
                                                            m2.commands,
                                                            pop_tr_snap(m4, ctr).commands,
                                                            pc,
                                                            Command::PopClip,
                                                        );
                                                        lemma_ext_tr_wrap(
                                                            m.commands,
                                                            pop_tr_snap(m4, ctr).commands.push(
                                                                Command::PopClip,
                                                            ),
                                                            tr,
                                                        );
                                                    },
                                                }
                                            }
                                        },
                                    }
                                },
                            }
                        },
                    }
                },
                _ => {
                    match load_brush_spec(t, p, m.stops.len() as int, node) {
                        Option::Some(bs) => {
                            lemma_ext_neutral(
                                m.commands,
                                Command::Fill(m.brushes.len() as usize),
                            );
                        },
                        Option::None => {},
                    }
                },
            }
        },
    }
}

/// Layer evaluation extends the command list by a balanced, well-nested
/// block.
proof fn lemma_eval_layers_balanced<P: PaletteLookup + ?Sized, O: OutlineSource + ?Sized>(
    t: PaintTable,
    p: &P,
    o: &O,
    m: CtxSnap,
    bl: Seq<u32>,
    first: int,
    count: nat,
    fuel: nat,
)
    ensures
        match eval_layers_spec(t, p, o, m, bl, first, count, fuel) {
            Ok(m2) => cmd_ext_ok(m.commands, m2.commands),
            Err(_) => true,
        },
    decreases fuel, count, 0int,
{
    if count == 0 {
        lemma_ext_refl(m.commands);
    } else if !(0 <= first < t.v1_layers@.len()) {
    } else {
        let cid = t.v1_layers@[first];
        let step = if bl.contains(cid) {
            Ok(m)
        } else if fuel == 0 {
            Err::<CtxSnap, Error>(Error::DepthLimitExceeded)
        } else {
            eval_paint_spec(t, p, o, m, bl.push(cid), cid as int, (fuel - 1) as nat)
        };
        if bl.contains(cid) {
            lemma_ext_refl(m.commands);
        } else if fuel != 0 {
            lemma_eval_paint_balanced(t, p, o, m, bl.push(cid), cid as int, (fuel - 1) as nat);
        }
        match step {
            Err(_) => {},
            Ok(m2) => {
                lemma_eval_layers_balanced(t, p, o, m2, bl, first + 1, (count - 1) as nat, fuel);
                match eval_layers_spec(t, p, o, m2, bl, first + 1, (count - 1) as nat, fuel) {
                    Err(_) => {},
                    Ok(m3) => {
                        lemma_ext_trans(m.commands, m2.commands, m3.commands);
                    },
                }
            },
        }
    }
}

/// Version-0 evaluation extends the command list by a balanced block: it
/// only appends fills.
proof fn lemma_eval_v0_balanced<P: PaletteLookup + ?Sized, O: OutlineSource + ?Sized>(
    t: PaintTable,
    p: &P,
    o: &O,
    m: CtxSnap,
    first: int,
    count: nat,
)
    ensures
        match eval_v0_layers_spec(t, p, o, m, first, count) {
            Ok(m2) => cmd_ext_ok(m.commands, m2.commands),
            Err(_) => true,
        },
    decreases count,
{
    if count == 0 {
        lemma_ext_refl(m.commands);
    } else if !(0 <= first < t.v0_layers@.len()) {
    } else {
        let lr = t.v0_layers@[first];
        match push_path_spec(o, m, lr.glyph_id) {
            Err(_) => {},
            Ok(pp) => {
                let m2 = pp.0;
                let cmd = Command::FillPath {
                    glyph_id: lr.glyph_id,
                    path: pp.1 as usize,
                    brush: m2.brushes.len() as usize,
                };
                let m3 = fill_brush_snap(
                    m2,
                    BrushData::Solid(p.color_spec(lr.palette_index)),
                    Seq::empty(),
                    Option::None,
                    cmd,
                );
                assert(m2.commands == m.commands);
                lemma_ext_neutral(m2.commands, cmd);
                lemma_eval_v0_balanced(t, p, o, m3, first + 1, (count - 1) as nat);
                match eval_v0_layers_spec(t, p, o, m3, first + 1, (count - 1) as nat) {
                    Err(_) => {},
                    Ok(m4) => {
                        lemma_ext_trans(m.commands, m3.commands, m4.commands);
                    },
                }
            },
        }
    }
}

/// Balanced commands: for every paint graph, a successful load emits a
/// command list whose push and pop counts agree for each stack kind --
/// transform, clip and layer -- and whose running balance never goes
/// negative at any prefix.
pub proof fn lemma_load_balanced<P: PaletteLookup + ?Sized, O: OutlineSource + ?Sized>(
    t: PaintTable,
    p: &P,
    o: &O,
    g: GlyphId,
)
    ensures
        match load_spec(t, p, o, g) {
            Ok(m) => block_ok(m.commands),
            Err(_) => true,
        },
{
    let m0 = empty_snap();
    if t.version == 0 {
        match find_base_v0(t, g) {
            Option::None => {},
            Option::Some(i) => {
                lemma_eval_v0_balanced(
                    t,
                    p,
                    o,
                    m0,
                    t.v0_glyphs@[i].first_layer as int,
                    t.v0_glyphs@[i].num_layers as nat,
                );
                match load_v0_spec(t, p, o, m0, g) {
                    Err(_) => {},
                    Ok(m) => {
                        assert(m.commands.skip(0) =~= m.commands);
                    },
                }
            },
        }
    } else {
        match find_base_v1(t, g) {
            Option::Some(i) => {
                lemma_eval_paint_balanced(
                    t,
                    p,
                    o,
                    m0,
                    seq![t.v1_glyphs@[i].paint],
                    t.v1_glyphs@[i].paint as int,
                    MAX_DEPTH as nat,
                );
                match load_spec(t, p, o, g) {
                    Err(_) => {},
                    Ok(m) => {
                        assert(m.commands.skip(0) =~= m.commands);
                    },
                }
            },
            Option::None => {
                match find_base_v0(t, g) {
                    Option::None => {},
                    Option::Some(i) => {
                        lemma_eval_v0_balanced(
                            t,
                            p,
                            o,
                            m0,
                            t.v0_glyphs@[i].first_layer as int,
                            t.v0_glyphs@[i].num_layers as nat,
                        );
                        match load_v0_spec(t, p, o, m0, g) {
                            Err(_) => {},
                            Ok(m) => {
                                assert(m.commands.skip(0) =~= m.commands);
                            },
                        }
                    },
                }
            },
        }
    }
}

/// Cycle termination: a `ColorGlyph` reference whose target is already on
/// the path from the root is silently skipped -- the evaluation returns the
/// context unchanged, emitting no commands for the cyclic branch. (The
/// evaluation itself is a total function, so every load terminates within
/// the depth ceiling.)
pub proof fn lemma_cycle_skipped<P: PaletteLookup + ?Sized, O: OutlineSource + ?Sized>(
    t: PaintTable,
    p: &P,
    o: &O,
    m: CtxSnap,
    bl: Seq<u32>,
    ix: int,
    fuel: nat,
    glyph_id: GlyphId,
    bi: int,
)
    requires
        0 <= ix < t.paints@.len(),
        t.paints@[ix] == (PaintNode::ColorGlyph { glyph_id }),
        find_base_v1(t, glyph_id) == Option::Some(bi),
        bl.contains(t.v1_glyphs@[bi].paint),
    ensures
        eval_paint_spec(t, p, o, m, bl, ix, fuel) == Ok::<CtxSnap, Error>(m),
{
}

/// Cycle termination, layer branch: a layer whose paint identifier is
/// already on the path from the root is a cycle and is skipped silently --
/// that step of the layer loop appends no command and runs no callback,
/// and the remaining layers evaluate from the context unchanged. A skipped
/// layer is not an error.
pub proof fn lemma_layer_cycle_skipped<P: PaletteLookup + ?Sized, O: OutlineSource + ?Sized>(
    t: PaintTable,
    p: &P,
    o: &O,
    m: CtxSnap,
    bl: Seq<u32>,
    first: int,
    count: nat,
    fuel: nat,
)
    requires
        count > 0,
        0 <= first < t.v1_layers@.len(),
        bl.contains(t.v1_layers@[first]),
    ensures
        eval_layers_spec(t, p, o, m, bl, first, count, fuel) == eval_layers_spec(
            t,
            p,
            o,
            m,
            bl,
            first + 1,
            (count - 1) as nat,
            fuel,
        ),
{
}

/// Round-trip idempotence: evaluating the same glyph against the same
/// table, palette and outline source yields the same context both times,
/// so two loads produce bit-identical command lists.
pub proof fn lemma_load_deterministic<P: PaletteLookup + ?Sized, O: OutlineSource + ?Sized>(
    t: PaintTable,
    p: &P,
    o: &O,
    g: GlyphId,
    m1: CtxSnap,
    m2: CtxSnap,
)
    requires
        load_spec(t, p, o, g) == Ok::<CtxSnap, Error>(m1),
        load_spec(t, p, o, g) == Ok::<CtxSnap, Error>(m2),
    ensures
        m1.commands == m2.commands,
        m1 == m2,
{
}

/// Transform composition: a chain of a translate wrapper over a scale
/// wrapper flattens to exactly the product of the two primitive matrices,
/// composed left to right.
pub proof fn lemma_transform_chain(
    t: PaintTable,
    i: int,
    a: i32,
    b: i32,
    s: i32,
    j: u32,
    k: u32,
    fuel: nat,
)
    requires
        0 <= i < t.paints@.len(),
        t.paints@[i] == (PaintNode::Translate {
            dx: VarScalar { base: a, var_index: Option::None },
            dy: VarScalar { base: b, var_index: Option::None },
            paint: j,
        }),
        0 <= j < t.paints@.len(),
        t.paints@[j as int] == (PaintNode::Scale {
            sx: VarScalar { base: s, var_index: Option::None },
            sy: VarScalar { base: s, var_index: Option::None },
            center: Option::None,
            paint: k,
        }),
        0 <= k < t.paints@.len(),
        !is_transform_node(t.paints@[k as int]),
        fuel >= 2,
    ensures
        flatten_spec(t, i, Option::None, fuel) == Ok::<(Option<Transform>, int), Error>(
            (
                Option::Some(
                    crate::transform::mul_spec(
                        crate::transform::translate_spec(a as int, b as int),
                        crate::transform::scale_spec(s as int, s as int),
                    ),
                ),
                k as int,
            ),
        ),
{
    reveal_with_fuel(flatten_spec, 4);
    let tr1 = crate::transform::translate_spec(a as int, b as int);
    let tr2 = crate::transform::scale_spec(s as int, s as int);
    assert(node_matrix_spec(t, t.paints@[i]) == tr1);
    assert(node_matrix_spec(t, t.paints@[j as int]) == tr2);
    assert(flatten_spec(t, k as int, Option::Some(crate::transform::mul_spec(tr1, tr2)), (fuel
        - 2) as nat) == Ok::<(Option<Transform>, int), Error>(
        (Option::Some(crate::transform::mul_spec(tr1, tr2)), k as int),
    ));
}

/// Cache coherence: in any well-formed context -- and a successful load
/// always leaves one -- no two cached paths belong to the same glyph, so
/// each glyph's outline was extracted at most once during the load.
pub proof fn lemma_outline_cached_once(m: CtxSnap)
    requires
        ctx_wf(m),
    ensures
        forall|i: int, j: int|
            0 <= i < j < m.paths.len() ==> (#[trigger] m.paths[i]).glyph_id != (
            #[trigger] m.paths[j]).glyph_id,
{
}

} // verus!
