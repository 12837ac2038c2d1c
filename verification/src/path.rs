//! Compact representation of a vector path.
//!
//! A path is a list of verbs with a parallel list of points: a `MoveTo`,
//! `LineTo`, `QuadTo` or `CurveTo` verb consumes one, one, two or three
//! points; `Close` consumes none. Coordinates are 16.16 font units.

use vstd::prelude::*;
use crate::fixed::FixedPoint;

verus! {

/// One drawing verb of a path.
#[derive(Copy, Clone, PartialEq, Eq, Structural, Debug)]
pub enum Verb {
    MoveTo,
    LineTo,
    QuadTo,
    CurveTo,
    Close,
}

/// One element of a path: a verb together with its points.
#[derive(Copy, Clone, PartialEq, Eq, Structural, Debug)]
pub enum PathEl {
    MoveTo(FixedPoint),
    LineTo(FixedPoint),
    QuadTo(FixedPoint, FixedPoint),
    CurveTo(FixedPoint, FixedPoint, FixedPoint),
    Close,
}

/// The number of points a verb consumes.
pub open spec fn verb_points(v: Verb) -> int {
    match v {
        Verb::MoveTo => 1,
        Verb::LineTo => 1,
        Verb::QuadTo => 2,
        Verb::CurveTo => 3,
        Verb::Close => 0,
    }
}

/// The verb of a path element.
pub open spec fn el_verb(e: PathEl) -> Verb {
    match e {
        PathEl::MoveTo(_) => Verb::MoveTo,
        PathEl::LineTo(_) => Verb::LineTo,
        PathEl::QuadTo(_, _) => Verb::QuadTo,
        PathEl::CurveTo(_, _, _) => Verb::CurveTo,
        PathEl::Close => Verb::Close,
    }
}

/// The points of a path element, in order.
pub open spec fn el_points(e: PathEl) -> Seq<FixedPoint> {
    match e {
        PathEl::MoveTo(p) => seq![p],
        PathEl::LineTo(p) => seq![p],
        PathEl::QuadTo(c, p) => seq![c, p],
        PathEl::CurveTo(c0, c1, p) => seq![c0, c1, p],
        PathEl::Close => seq![],
    }
}

/// The verbs of a sequence of path elements.
pub open spec fn els_verbs(els: Seq<PathEl>) -> Seq<Verb>
    decreases els.len(),
{
    if els.len() == 0 {
        seq![]
    } else {
        els_verbs(els.drop_last()).push(el_verb(els.last()))
    }
}

/// The points of a sequence of path elements, concatenated in order.
pub open spec fn els_points(els: Seq<PathEl>) -> Seq<FixedPoint>
    decreases els.len(),
{
    if els.len() == 0 {
        seq![]
    } else {
        els_points(els.drop_last()) + el_points(els.last())
    }
}

/// Receives the drawing commands of a replayed path.
pub trait Pen {
    fn move_to(&mut self, x: i32, y: i32);

    fn line_to(&mut self, x: i32, y: i32);

    fn quad_to(&mut self, cx0: i32, cy0: i32, x: i32, y: i32);

    fn curve_to(&mut self, cx0: i32, cy0: i32, cx1: i32, cy1: i32, x: i32, y: i32);

    fn close(&mut self);
}

/// Collects the outline of one glyph as a list of path elements.
pub struct PathBuilder {
    els: Vec<PathEl>,
}

impl View for PathBuilder {
    type V = Seq<PathEl>;

    closed spec fn view(&self) -> Seq<PathEl> {
        self.els@
    }
}

impl PathBuilder {
    /// Creates an empty builder.
    pub fn new() -> (r: PathBuilder)
        ensures
            r@ == Seq::<PathEl>::empty(),
    {
        PathBuilder { els: Vec::new() }
    }

    /// The elements collected so far.
    pub fn elements(&self) -> (r: &Vec<PathEl>)
        ensures
            r@ == self@,
    {
        &self.els
    }

    /// Begins a new subpath at `(x, y)`.
    pub fn move_to(&mut self, x: i32, y: i32)
        ensures
            final(self)@ == old(self)@.push(PathEl::MoveTo(FixedPoint { x, y })),
    {
        self.els.push(PathEl::MoveTo(FixedPoint { x, y }));
    }

    /// Draws a line to `(x, y)`.
    pub fn line_to(&mut self, x: i32, y: i32)
        ensures
            final(self)@ == old(self)@.push(PathEl::LineTo(FixedPoint { x, y })),
    {
        self.els.push(PathEl::LineTo(FixedPoint { x, y }));
    }

    /// Draws a quadratic curve with one control point.
    pub fn quad_to(&mut self, cx0: i32, cy0: i32, x: i32, y: i32)
        ensures
            final(self)@ == old(self)@.push(
                PathEl::QuadTo(FixedPoint { x: cx0, y: cy0 }, FixedPoint { x, y }),
            ),
    {
        self.els.push(PathEl::QuadTo(FixedPoint { x: cx0, y: cy0 }, FixedPoint { x, y }));
    }

    /// Draws a cubic curve with two control points.
    pub fn curve_to(&mut self, cx0: i32, cy0: i32, cx1: i32, cy1: i32, x: i32, y: i32)
        ensures
            final(self)@ == old(self)@.push(
                PathEl::CurveTo(
                    FixedPoint { x: cx0, y: cy0 },
                    FixedPoint { x: cx1, y: cy1 },
                    FixedPoint { x, y },
                ),
            ),
    {
        self.els.push(
            PathEl::CurveTo(
                FixedPoint { x: cx0, y: cy0 },
                FixedPoint { x: cx1, y: cy1 },
                FixedPoint { x, y },
            ),
        );
    }

    /// Closes the current subpath.
    pub fn close(&mut self)
        ensures
            final(self)@ == old(self)@.push(PathEl::Close),
    {
        self.els.push(PathEl::Close);
    }
}

/// Well-formedness of a verb/point pair: the points are exactly the ones the
/// verbs consume.
pub open spec fn verbs_points_wf(verbs: Seq<Verb>, points: Seq<FixedPoint>) -> bool {
    points.len() == total_points(verbs)
}

/// The total number of points a sequence of verbs consumes.
pub open spec fn total_points(verbs: Seq<Verb>) -> int
    decreases verbs.len(),
{
    if verbs.len() == 0 {
        0
    } else {
        total_points(verbs.drop_last()) + verb_points(verbs.last())
    }
}

/// The number of points consumed by a prefix of the verbs.
pub open spec fn prefix_points(verbs: Seq<Verb>, n: int) -> int {
    total_points(verbs.take(n))
}

/// A borrowed view of one glyph's outline.
pub struct Path<'a> {
    verbs: &'a [Verb],
    points: &'a [FixedPoint],
}

impl<'a> Path<'a> {
    /// Whether the point list matches the verb list.
    pub closed spec fn wf(&self) -> bool {
        verbs_points_wf(self.verbs@, self.points@)
    }

    /// The verbs of the path.
    pub closed spec fn verbs_view(&self) -> Seq<Verb> {
        self.verbs@
    }

    /// The points of the path.
    pub closed spec fn points_view(&self) -> Seq<FixedPoint> {
        self.points@
    }

    /// Creates a path over the given verb and point slices.
    pub fn new(verbs: &'a [Verb], points: &'a [FixedPoint]) -> (r: Path<'a>)
        requires
            verbs_points_wf(verbs@, points@),
        ensures
            r.verbs_view() == verbs@,
            r.points_view() == points@,
            r.wf(),
    {
        Path { verbs, points }
    }

    /// The verbs of the path.
    pub fn verbs(&self) -> (r: &[Verb])
        ensures
            r@ == self.verbs_view(),
    {
        self.verbs
    }

    /// The points of the path.
    pub fn points(&self) -> (r: &[FixedPoint])
        ensures
            r@ == self.points_view(),
    {
        self.points
    }

    /// Replays the path against a pen, pairing each verb with its points in
    /// order.
    pub fn evaluate<P: Pen>(&self, pen: &mut P)
        requires
            self.wf(),
    {
        let verbs_len = self.verbs.len();
        let points_len = self.points.len();
        let mut ix: usize = 0;
        let mut vi: usize = 0;
        while vi < verbs_len
            invariant
                0 <= vi <= verbs_len,
                verbs_len == self.verbs@.len(),
                points_len == self.points@.len(),
                self.wf(),
                ix == prefix_points(self.verbs@, vi as int),
                ix <= self.points@.len(),
            decreases verbs_len - vi,
        {
            proof {
                lemma_prefix_points_step(self.verbs@, vi as int);
                lemma_prefix_points_bound(self.verbs@, vi as int + 1);
            }
            let verb = *vstd::slice::slice_index_get(self.verbs, vi);
            match verb {
                Verb::MoveTo => {
                    let to = *vstd::slice::slice_index_get(self.points, ix);
                    ix = ix + 1;
                    pen.move_to(to.x, to.y);
                }
                Verb::LineTo => {
                    let to = *vstd::slice::slice_index_get(self.points, ix);
                    ix = ix + 1;
                    pen.line_to(to.x, to.y);
                }
                Verb::QuadTo => {
                    let control = *vstd::slice::slice_index_get(self.points, ix);
                    let to = *vstd::slice::slice_index_get(self.points, ix + 1);
                    ix = ix + 2;
                    pen.quad_to(control.x, control.y, to.x, to.y);
                }
                Verb::CurveTo => {
                    let control1 = *vstd::slice::slice_index_get(self.points, ix);
                    let control2 = *vstd::slice::slice_index_get(self.points, ix + 1);
                    let to = *vstd::slice::slice_index_get(self.points, ix + 2);
                    ix = ix + 3;
                    pen.curve_to(control1.x, control1.y, control2.x, control2.y, to.x, to.y);
                }
                Verb::Close => {
                    pen.close();
                }
            }
            vi = vi + 1;
        }
    }
}

/// Taking one more verb consumes that verb's points.
proof fn lemma_prefix_points_step(verbs: Seq<Verb>, n: int)
    requires
        0 <= n < verbs.len(),
    ensures
        prefix_points(verbs, n + 1) == prefix_points(verbs, n) + verb_points(verbs[n]),
{
    assert(verbs.take(n + 1).drop_last() =~= verbs.take(n));
    assert(verbs.take(n + 1).last() == verbs[n]);
}

/// A prefix never consumes more points than the whole verb list.
proof fn lemma_prefix_points_bound(verbs: Seq<Verb>, n: int)
    requires
        0 <= n <= verbs.len(),
    ensures
        prefix_points(verbs, n) <= total_points(verbs),
        0 <= prefix_points(verbs, n),
    decreases verbs.len() - n,
{
    lemma_prefix_points_nonneg(verbs, n);
    if n == verbs.len() {
        assert(verbs.take(n) =~= verbs);
    } else {
        lemma_prefix_points_step(verbs, n);
        lemma_prefix_points_bound(verbs, n + 1);
    }
}

/// Point counts are nonnegative.
proof fn lemma_prefix_points_nonneg(verbs: Seq<Verb>, n: int)
    requires
        0 <= n <= verbs.len(),
    ensures
        0 <= prefix_points(verbs, n),
    decreases n,
{
    if n > 0 {
        lemma_prefix_points_nonneg(verbs, n - 1);
        lemma_prefix_points_step(verbs, n - 1);
    } else {
        assert(verbs.take(0) =~= Seq::<Verb>::empty());
    }
}

} // verus!
