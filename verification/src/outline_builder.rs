//! Flattening of font curve events into a discrete glyph outline.
//!
//! The builder consumes move / line / quadratic / cubic / close events
//! whose coordinates are fixed-point font units, subdivides the curved
//! segments into line segments, and normalizes every emitted point by
//! the font's line height.

use crate::error::{GlyphOutlineError, MeshTextError};
use crate::fixed::{
    div_trunc, lerp_fixed, lerp_fixed_spec, FixedPoint, COORD_LIMIT, RAW_LIMIT,
};
use crate::glyph_outline::GlyphOutline;
use crate::quality_settings::QualitySettings;
use vstd::prelude::*;

verus! {

/// A curve-drawing event of a font outline. Coordinates are fixed-point
/// font units, not yet normalized by the line height.
#[derive(Debug, Clone, Copy, PartialEq, Eq, Structural)]
pub enum OutlineEvent {
    /// Starts a new contour at the given point.
    MoveTo { x: i64, y: i64 },
    /// Extends the current contour with a straight segment.
    LineTo { x: i64, y: i64 },
    /// Extends the current contour with a quadratic bezier segment.
    QuadTo { x1: i64, y1: i64, x: i64, y: i64 },
    /// Extends the current contour with a cubic bezier segment.
    CurveTo { x1: i64, y1: i64, x2: i64, y2: i64, x: i64, y: i64 },
    /// Closes the current contour back to its starting point.
    Close,
}

/// Whether a raw event coordinate pair is in the supported range.
pub open spec fn raw_ok(x: int, y: int) -> bool {
    -RAW_LIMIT <= x <= RAW_LIMIT && -RAW_LIMIT <= y <= RAW_LIMIT
}

/// Whether a raw point is in the supported range.
pub open spec fn in_raw_range(p: FixedPoint) -> bool {
    raw_ok(p.x as int, p.y as int)
}

/// Whether a normalized coordinate pair is in the supported range.
pub open spec fn coord_ok(p: (int, int)) -> bool {
    -COORD_LIMIT <= p.0 <= COORD_LIMIT && -COORD_LIMIT <= p.1 <= COORD_LIMIT
}

/// Whether a normalized point is in the supported range.
pub open spec fn in_coord_range(p: FixedPoint) -> bool {
    coord_ok((p.x as int, p.y as int))
}

/// Interpolates both coordinates of a point pair.
pub open spec fn lerp_pair(a: (int, int), b: (int, int), i: int, n: int) -> (int, int) {
    (lerp_fixed_spec(a.0, b.0, i, n), lerp_fixed_spec(a.1, b.1, i, n))
}

/// A point on a quadratic spline, by repeated linear interpolation.
pub open spec fn point_on_quad_spec(
    p0: (int, int),
    p1: (int, int),
    p2: (int, int),
    i: int,
    n: int,
) -> (int, int) {
    lerp_pair(lerp_pair(p0, p1, i, n), lerp_pair(p1, p2, i, n), i, n)
}

/// A point on a cubic spline, built from two quadratic evaluations
/// and a final interpolation.
pub open spec fn point_on_cubic_spec(
    p0: (int, int),
    p1: (int, int),
    p2: (int, int),
    p3: (int, int),
    i: int,
    n: int,
) -> (int, int) {
    lerp_pair(
        point_on_quad_spec(p0, p1, p2, i, n),
        point_on_quad_spec(p1, p2, p3, i, n),
        i,
        n,
    )
}

/// The pen position after emitting `i` samples of a quadratic segment:
/// every sample is evaluated from the pen position that the previous
/// sample left behind.
pub open spec fn quad_flatten(
    cur: (int, int),
    c: (int, int),
    e: (int, int),
    i: int,
    n: int,
) -> (int, int)
    decreases i,
{
    if i <= 0 {
        cur
    } else {
        point_on_quad_spec(quad_flatten(cur, c, e, i - 1, n), c, e, i, n)
    }
}

/// The pen position after emitting `i` samples of a cubic segment.
pub open spec fn cubic_flatten(
    cur: (int, int),
    c1: (int, int),
    c2: (int, int),
    e: (int, int),
    i: int,
    n: int,
) -> (int, int)
    decreases i,
{
    if i <= 0 {
        cur
    } else {
        point_on_cubic_spec(cubic_flatten(cur, c1, c2, e, i - 1, n), c1, c2, e, i, n)
    }
}

/// A raw point normalized by the line height `h`.
pub open spec fn norm_pair(p: (int, int), h: int) -> (int, int) {
    (div_trunc(p.0, h), div_trunc(p.1, h))
}

/// The normalized point stored for a raw coordinate pair.
pub open spec fn norm_fp(p: (int, int), h: int) -> FixedPoint {
    FixedPoint { x: norm_pair(p, h).0 as i64, y: norm_pair(p, h).1 as i64 }
}

/// The run of `n` consecutive point indices starting at `start`.
pub open spec fn index_run(start: int, n: int) -> Seq<u32> {
    Seq::new(n as nat, |k: int| (start + k) as u32)
}

/// The first `m` normalized samples that flattening a quadratic
/// segment into `n` steps emits.
pub open spec fn quad_samples(
    cur: (int, int),
    c: (int, int),
    e: (int, int),
    n: int,
    h: int,
    m: int,
) -> Seq<FixedPoint> {
    Seq::new(m as nat, |k: int| norm_fp(quad_flatten(cur, c, e, k + 1, n), h))
}

/// The first `m` normalized samples that flattening a cubic segment
/// into `n` steps emits.
pub open spec fn cubic_samples(
    cur: (int, int),
    c1: (int, int),
    c2: (int, int),
    e: (int, int),
    n: int,
    h: int,
    m: int,
) -> Seq<FixedPoint> {
    Seq::new(m as nat, |k: int| norm_fp(cubic_flatten(cur, c1, c2, e, k + 1, n), h))
}

/// The observable state of the outline builder. It composes the
/// per-event contracts into one statement about a whole event stream.
pub ghost struct BuilderState {
    /// The normalized points accumulated so far.
    pub points: Seq<FixedPoint>,
    /// The contours accumulated so far.
    pub contours: Seq<Seq<u32>>,
    /// The raw pen position.
    pub current: FixedPoint,
    /// The index at which the current contour started.
    pub start: u32,
}

/// The state a move event leads to, or `None` where the builder
/// reports an error: the raw point and its normalized form must be in
/// range, and the point count must stay addressable.
pub open spec fn move_to_spec(s: BuilderState, x: int, y: int, h: int) -> Option<BuilderState> {
    if raw_ok(x, y) && coord_ok(norm_pair((x, y), h)) && s.points.len() < 0xFFFF_FFFF {
        Some(
            BuilderState {
                points: s.points.push(norm_fp((x, y), h)),
                contours: s.contours.push(seq![s.points.len() as u32]),
                current: FixedPoint { x: x as i64, y: y as i64 },
                start: s.points.len() as u32,
            },
        )
    } else {
        None
    }
}

/// The state a line event leads to: additionally, a contour must have
/// been started.
pub open spec fn line_to_spec(s: BuilderState, x: int, y: int, h: int) -> Option<BuilderState> {
    if raw_ok(x, y) && coord_ok(norm_pair((x, y), h)) && s.points.len() < 0xFFFF_FFFF
        && s.contours.len() > 0 {
        Some(
            BuilderState {
                points: s.points.push(norm_fp((x, y), h)),
                contours: s.contours.update(
                    s.contours.len() - 1,
                    s.contours.last().push(s.points.len() as u32),
                ),
                current: FixedPoint { x: x as i64, y: y as i64 },
                start: s.start,
            },
        )
    } else {
        None
    }
}

/// The state a quadratic event leads to: every emitted sample must
/// normalize into range.
pub open spec fn quad_to_spec(
    s: BuilderState,
    x1: int,
    y1: int,
    x: int,
    y: int,
    h: int,
    n: int,
) -> Option<BuilderState> {
    let cur = (s.current.x as int, s.current.y as int);
    let c = (x1, y1);
    let e = (x, y);
    if raw_ok(x1, y1) && raw_ok(x, y) && (n == 0 || (s.contours.len() > 0 && s.points.len() + n
        <= 0xFFFF_FFFF && forall|i: int|
        1 <= i <= n ==> coord_ok(norm_pair(#[trigger] quad_flatten(cur, c, e, i, n), h)))) {
        if n == 0 {
            Some(s)
        } else {
            Some(
                BuilderState {
                    points: s.points + quad_samples(cur, c, e, n, h, n),
                    contours: s.contours.update(
                        s.contours.len() - 1,
                        s.contours.last() + index_run(s.points.len() as int, n),
                    ),
                    current: FixedPoint {
                        x: quad_flatten(cur, c, e, n, n).0 as i64,
                        y: quad_flatten(cur, c, e, n, n).1 as i64,
                    },
                    start: s.start,
                },
            )
        }
    } else {
        None
    }
}

/// The state a cubic event leads to.
pub open spec fn curve_to_spec(
    s: BuilderState,
    x1: int,
    y1: int,
    x2: int,
    y2: int,
    x: int,
    y: int,
    h: int,
    n: int,
) -> Option<BuilderState> {
    let cur = (s.current.x as int, s.current.y as int);
    let c1 = (x1, y1);
    let c2 = (x2, y2);
    let e = (x, y);
    if raw_ok(x1, y1) && raw_ok(x2, y2) && raw_ok(x, y) && (n == 0 || (s.contours.len() > 0
        && s.points.len() + n <= 0xFFFF_FFFF && forall|i: int|
        1 <= i <= n ==> coord_ok(norm_pair(#[trigger] cubic_flatten(cur, c1, c2, e, i, n), h)))) {
        if n == 0 {
            Some(s)
        } else {
            Some(
                BuilderState {
                    points: s.points + cubic_samples(cur, c1, c2, e, n, h, n),
                    contours: s.contours.update(
                        s.contours.len() - 1,
                        s.contours.last() + index_run(s.points.len() as int, n),
                    ),
                    current: FixedPoint {
                        x: cubic_flatten(cur, c1, c2, e, n, n).0 as i64,
                        y: cubic_flatten(cur, c1, c2, e, n, n).1 as i64,
                    },
                    start: s.start,
                },
            )
        }
    } else {
        None
    }
}

/// The state a close event leads to: the current contour must hold at
/// least two entries and a point must be there to remove.
pub open spec fn close_spec(s: BuilderState) -> Option<BuilderState> {
    if s.contours.len() > 0 && s.contours.last().len() >= 2 && s.points.len() > 0
        && s.contours.last().last() == s.points.len() - 1 && (s.start as int) < s.points.len()
        - 1 {
        Some(
            BuilderState {
                points: s.points.drop_last(),
                contours: s.contours.update(
                    s.contours.len() - 1,
                    s.contours.last().drop_last().push(s.start),
                ),
                current: s.current,
                start: s.start,
            },
        )
    } else {
        None
    }
}

/// The state one event leads to under the given line height and
/// quality settings.
pub open spec fn apply_event_spec(
    s: BuilderState,
    e: OutlineEvent,
    h: int,
    q: QualitySettings,
) -> Option<BuilderState> {
    match e {
        OutlineEvent::MoveTo { x, y } => move_to_spec(s, x as int, y as int, h),
        OutlineEvent::LineTo { x, y } => line_to_spec(s, x as int, y as int, h),
        OutlineEvent::QuadTo { x1, y1, x, y } => quad_to_spec(
            s,
            x1 as int,
            y1 as int,
            x as int,
            y as int,
            h,
            q.quad_interpolation_steps as int,
        ),
        OutlineEvent::CurveTo { x1, y1, x2, y2, x, y } => curve_to_spec(
            s,
            x1 as int,
            y1 as int,
            x2 as int,
            y2 as int,
            x as int,
            y as int,
            h,
            q.cubic_interpolation_steps as int,
        ),
        OutlineEvent::Close => close_spec(s),
    }
}

/// The state a whole event stream leads to, or `None` as soon as one
/// event fails.
pub open spec fn fold_events_spec(
    s: BuilderState,
    events: Seq<OutlineEvent>,
    h: int,
    q: QualitySettings,
) -> Option<BuilderState>
    decreases events.len(),
{
    if events.len() == 0 {
        Some(s)
    } else {
        match fold_events_spec(s, events.drop_last(), h, q) {
            None => None,
            Some(s2) => apply_event_spec(s2, events.last(), h, q),
        }
    }
}

/// The state of a freshly created builder.
pub open spec fn initial_builder_state() -> BuilderState {
    BuilderState {
        points: Seq::empty(),
        contours: Seq::empty(),
        current: FixedPoint { x: 0, y: 0 },
        start: 0,
    }
}

/// The outline a whole event stream builds, from the initial state.
pub open spec fn built_outline_spec(
    events: Seq<OutlineEvent>,
    h: int,
    q: QualitySettings,
) -> Option<BuilderState> {
    fold_events_spec(initial_builder_state(), events, h, q)
}

/// A failing prefix decides the whole stream: once the fold reports
/// an error, no further event can recover it.
pub proof fn lemma_fold_events_none_extends(
    s: BuilderState,
    events: Seq<OutlineEvent>,
    i: int,
    h: int,
    q: QualitySettings,
)
    requires
        0 <= i <= events.len(),
        fold_events_spec(s, events.take(i), h, q) is None,
    ensures
        fold_events_spec(s, events, h, q) is None,
    decreases events.len() - i,
{
    if i == events.len() {
        assert(events.take(i) =~= events);
    } else {
        assert(events.take(i + 1).drop_last() =~= events.take(i));
        assert(events.take(i + 1).last() == events[i]);
        lemma_fold_events_none_extends(s, events, i + 1, h, q);
    }
}

/// Interpolates both coordinates between two points.
fn point_on_line(a: FixedPoint, b: FixedPoint, step: u32, steps: u32) -> (r: FixedPoint)
    requires
        1 <= steps,
        step <= steps,
        in_raw_range(a),
        in_raw_range(b),
    ensures
        (r.x as int, r.y as int) == lerp_pair((a.x as int, a.y as int), (b.x as int, b.y as int), step as int, steps as int),
        in_raw_range(r),
{
    FixedPoint { x: lerp_fixed(a.x, b.x, step, steps), y: lerp_fixed(a.y, b.y, step, steps) }
}

/// A point on a quadratic spline with the control parameter `step / steps`.
fn point_on_quad(p0: FixedPoint, p1: FixedPoint, p2: FixedPoint, step: u32, steps: u32) -> (r: FixedPoint)
    requires
        1 <= steps,
        step <= steps,
        in_raw_range(p0),
        in_raw_range(p1),
        in_raw_range(p2),
    ensures
        (r.x as int, r.y as int) == point_on_quad_spec(
            (p0.x as int, p0.y as int),
            (p1.x as int, p1.y as int),
            (p2.x as int, p2.y as int),
            step as int,
            steps as int,
        ),
        in_raw_range(r),
{
    let a = point_on_line(p0, p1, step, steps);
    let b = point_on_line(p1, p2, step, steps);
    point_on_line(a, b, step, steps)
}

/// A point on a cubic spline with the control parameter `step / steps`.
fn point_on_cubic(
    p0: FixedPoint,
    p1: FixedPoint,
    p2: FixedPoint,
    p3: FixedPoint,
    step: u32,
    steps: u32,
) -> (r: FixedPoint)
    requires
        1 <= steps,
        step <= steps,
        in_raw_range(p0),
        in_raw_range(p1),
        in_raw_range(p2),
        in_raw_range(p3),
    ensures
        (r.x as int, r.y as int) == point_on_cubic_spec(
            (p0.x as int, p0.y as int),
            (p1.x as int, p1.y as int),
            (p2.x as int, p2.y as int),
            (p3.x as int, p3.y as int),
            step as int,
            steps as int,
        ),
        in_raw_range(r),
{
    let a = point_on_quad(p0, p1, p2, step, steps);
    let b = point_on_quad(p1, p2, p3, step, steps);
    point_on_line(a, b, step, steps)
}

/// The curve-flattening accumulator that turns font curve events into
/// a [`GlyphOutline`].
pub struct GlyphOutlineBuilder {
    /// The contours accumulated so far, as runs of point indices.
    pub contours: Vec<Vec<u32>>,
    /// The raw pen position.
    pub current_point: FixedPoint,
    /// The line height of the face, in fixed-point font units.
    pub font_height: i64,
    /// The normalized points accumulated so far.
    pub points: Vec<FixedPoint>,
    /// The subdivision settings for curved segments.
    pub quality: QualitySettings,
    /// The index at which the current contour started.
    pub start_index: u32,
}

impl GlyphOutlineBuilder {
    /// Well-formedness of the accumulated points alone: a positive
    /// line height, an index-addressable point count, normalized
    /// points in range, and a pen in range.
    pub open spec fn points_wf(&self) -> bool {
        &&& 1 <= self.font_height
        &&& self.points@.len() <= 0xFFFF_FFFF
        &&& forall|i: int| 0 <= i < self.points@.len() ==> in_coord_range(#[trigger] self.points@[i])
        &&& in_raw_range(self.current_point)
    }

    /// Well-formedness of the whole builder: the points are well
    /// formed, every contour entry indexes an existing point, entries
    /// of finished contours lie below the current contour's start, and
    /// the freshest point is referenced at most once, at the end of
    /// the current contour.
    pub open spec fn wf(&self) -> bool {
        &&& self.points_wf()
        &&& forall|c: int, j: int|
            0 <= c < self.contours_dv().len() && 0 <= j < self.contours_dv()[c].len()
                ==> (#[trigger] self.contours_dv()[c][j]) < self.points@.len()
        &&& forall|c: int, j: int|
            0 <= c < self.contours_dv().len() - 1 && 0 <= j < self.contours_dv()[c].len()
                ==> (#[trigger] self.contours_dv()[c][j]) < self.start_index
        &&& self.start_index <= self.points@.len()
        &&& (self.contours_dv().len() > 0 && self.contours_dv().last().len() > 0
            && self.contours_dv().last().last() == self.points@.len() - 1 && self.start_index
            < self.points@.len() - 1) ==> forall|j: int|
            0 <= j < self.contours_dv().last().len() - 1
                ==> (#[trigger] self.contours_dv().last()[j]) < self.points@.len() - 1
    }

    /// The contours as a sequence of index sequences.
    pub open spec fn contours_dv(&self) -> Seq<Seq<u32>> {
        self.contours@.map_values(|c: Vec<u32>| c@)
    }

    /// The observable state of this builder.
    pub open spec fn state(&self) -> BuilderState {
        BuilderState {
            points: self.points@,
            contours: self.contours_dv(),
            current: self.current_point,
            start: self.start_index,
        }
    }

    /// Whether two builders hold the same observable state.
    pub open spec fn same_state(&self, other: &GlyphOutlineBuilder) -> bool {
        &&& self.points@ == other.points@
        &&& self.contours_dv() == other.contours_dv()
        &&& self.current_point == other.current_point
        &&& self.font_height == other.font_height
        &&& self.quality == other.quality
        &&& self.start_index == other.start_index
    }

    /// Whether a raw point, once normalized, can be absorbed.
    pub open spec fn add_ok(&self, x: int, y: int) -> bool {
        coord_ok(norm_pair((x, y), self.font_height as int))
            && self.points@.len() < 0xFFFF_FFFF
    }

    /// Creates a new builder with an empty outline.
    pub fn new(font_height: i64, quality: QualitySettings) -> (b: Self)
        requires
            1 <= font_height,
        ensures
            b.wf(),
            b.contours@.len() == 0,
            b.points@.len() == 0,
            b.current_point == (FixedPoint { x: 0, y: 0 }),
            b.font_height == font_height,
            b.quality == quality,
            b.start_index == 0,
    {
        GlyphOutlineBuilder {
            contours: Vec::new(),
            current_point: FixedPoint { x: 0, y: 0 },
            font_height,
            points: Vec::new(),
            quality,
            start_index: 0,
        }
    }

    /// Returns a copy of the accumulated outline. Of a well-formed
    /// builder, every contour entry of the copy indexes an existing
    /// point.
    pub fn get_glyph_outline(&self) -> (o: GlyphOutline)
        ensures
            o.points@ == self.points@,
            o.contours@.map_values(|c: Vec<u32>| c@) == self.contours_dv(),
            self.wf() ==> o.indices_in_range(),
    {
        let mut points: Vec<FixedPoint> = Vec::new();
        let mut i: usize = 0;
        while i < self.points.len()
            invariant
                i <= self.points@.len(),
                points@ == self.points@.take(i as int),
            decreases self.points@.len() - i,
        {
            points.push(self.points[i]);
            i = i + 1;
        }
        proof {
            assert(points@ =~= self.points@);
        }
        let mut contours: Vec<Vec<u32>> = Vec::new();
        let mut c: usize = 0;
        while c < self.contours.len()
            invariant
                c <= self.contours@.len(),
                contours@.len() == c,
                forall|j: int| 0 <= j < c ==> #[trigger] contours@[j]@ == self.contours@[j]@,
            decreases self.contours@.len() - c,
        {
            let mut contour: Vec<u32> = Vec::new();
            let mut i: usize = 0;
            while i < self.contours[c].len()
                invariant
                    c < self.contours@.len(),
                    i <= self.contours@[c as int]@.len(),
                    contour@ == self.contours@[c as int]@.take(i as int),
                decreases self.contours@[c as int]@.len() - i,
            {
                contour.push(self.contours[c][i]);
                i = i + 1;
            }
            proof {
                assert(contour@ =~= self.contours@[c as int]@);
            }
            contours.push(contour);
            c = c + 1;
        }
        proof {
            assert(contours@.map_values(|v: Vec<u32>| v@) =~= self.contours_dv());
            if self.wf() {
                let o = GlyphOutline { contours, points };
                assert forall|c: int, i: int|
                    0 <= c < o.contours@.len() && 0 <= i < o.contours@[c]@.len() implies (
                #[trigger] o.contours@[c]@[i]) < o.points@.len() by {
                    assert(o.contours@[c]@ == self.contours_dv()[c]);
                }
            }
        }
        GlyphOutline { contours, points }
    }

    /// Normalizes a raw point and appends it, making it the new pen
    /// position. Fails when the normalized point is out of range or
    /// the point count can no longer be indexed.
    fn add_point(&mut self, point: FixedPoint) -> (r: Result<(), MeshTextError>)
        requires
            old(self).points_wf(),
            in_raw_range(point),
        ensures
            final(self).points_wf(),
            final(self).contours == old(self).contours,
            final(self).font_height == old(self).font_height,
            final(self).quality == old(self).quality,
            final(self).start_index == old(self).start_index,
            if old(self).add_ok(point.x as int, point.y as int) {
                &&& r is Ok
                &&& final(self).current_point == point
                &&& final(self).points@ == old(self).points@.push(
                    norm_fp((point.x as int, point.y as int), old(self).font_height as int),
                )
            } else {
                &&& r matches Err(MeshTextError::Outline(GlyphOutlineError))
                &&& *final(self) == *old(self)
            },
    {
        let nx = crate::fixed::div_fixed(point.x, self.font_height);
        let ny = crate::fixed::div_fixed(point.y, self.font_height);
        if nx < -COORD_LIMIT || nx > COORD_LIMIT || ny < -COORD_LIMIT || ny > COORD_LIMIT
            || self.points.len() >= 0xFFFF_FFFF {
            return Err(MeshTextError::Outline(GlyphOutlineError));
        }
        self.current_point = point;
        self.points.push(FixedPoint { x: nx, y: ny });
        Ok(())
    }

    /// Starts a new contour at the given raw point.
    pub fn move_to(&mut self, x: i64, y: i64) -> (r: Result<(), MeshTextError>)
        requires
            old(self).wf(),
        ensures
            final(self).wf(),
            final(self).font_height == old(self).font_height,
            final(self).quality == old(self).quality,
            if raw_ok(x as int, y as int) && old(self).add_ok(x as int, y as int) {
                &&& r is Ok
                &&& final(self).points@ == old(self).points@.push(
                    norm_fp((x as int, y as int), old(self).font_height as int),
                )
                &&& final(self).contours_dv() == old(self).contours_dv().push(
                    seq![old(self).points@.len() as u32],
                )
                &&& final(self).start_index == old(self).points@.len()
                &&& final(self).current_point == (FixedPoint { x, y })
            } else {
                &&& r matches Err(MeshTextError::Outline(GlyphOutlineError))
                &&& *final(self) == *old(self)
            },
    {
        if x < -RAW_LIMIT || x > RAW_LIMIT || y < -RAW_LIMIT || y > RAW_LIMIT {
            return Err(MeshTextError::Outline(GlyphOutlineError));
        }
        let nx = crate::fixed::div_fixed(x, self.font_height);
        let ny = crate::fixed::div_fixed(y, self.font_height);
        if nx < -COORD_LIMIT || nx > COORD_LIMIT || ny < -COORD_LIMIT || ny > COORD_LIMIT
            || self.points.len() >= 0xFFFF_FFFF {
            return Err(MeshTextError::Outline(GlyphOutlineError));
        }
        self.start_index = self.points.len() as u32;
        let mut contour: Vec<u32> = Vec::new();
        contour.push(self.start_index);
        self.contours.push(contour);
        let r = self.add_point(FixedPoint { x, y });
        proof {
            assert(final(self).contours_dv() =~= old(self).contours_dv().push(
                seq![old(self).points@.len() as u32],
            ));
        }
        r
    }

    /// Extends the current contour with a straight segment to the
    /// given raw point.
    pub fn line_to(&mut self, x: i64, y: i64) -> (r: Result<(), MeshTextError>)
        requires
            old(self).wf(),
        ensures
            final(self).wf(),
            final(self).font_height == old(self).font_height,
            final(self).quality == old(self).quality,
            final(self).start_index == old(self).start_index,
            if raw_ok(x as int, y as int) && old(self).add_ok(x as int, y as int)
                && old(self).contours@.len() > 0 {
                &&& r is Ok
                &&& final(self).points@ == old(self).points@.push(
                    norm_fp((x as int, y as int), old(self).font_height as int),
                )
                &&& final(self).contours_dv() == old(self).contours_dv().update(
                    old(self).contours_dv().len() - 1,
                    old(self).contours_dv().last().push(old(self).points@.len() as u32),
                )
                &&& final(self).current_point == (FixedPoint { x, y })
            } else {
                &&& r matches Err(MeshTextError::Outline(GlyphOutlineError))
                &&& final(self).same_state(old(self))
            },
    {
        if x < -RAW_LIMIT || x > RAW_LIMIT || y < -RAW_LIMIT || y > RAW_LIMIT {
            return Err(MeshTextError::Outline(GlyphOutlineError));
        }
        let nx = crate::fixed::div_fixed(x, self.font_height);
        let ny = crate::fixed::div_fixed(y, self.font_height);
        if nx < -COORD_LIMIT || nx > COORD_LIMIT || ny < -COORD_LIMIT || ny > COORD_LIMIT
            || self.points.len() >= 0xFFFF_FFFF {
            return Err(MeshTextError::Outline(GlyphOutlineError));
        }
        let last = self.contours.pop();
        match last {
            None => Err(MeshTextError::Outline(GlyphOutlineError)),
            Some(mut contour) => {
                contour.push(self.points.len() as u32);
                self.contours.push(contour);
                let r = self.add_point(FixedPoint { x, y });
                proof {
                    assert(final(self).contours_dv() =~= old(self).contours_dv().update(
                        old(self).contours_dv().len() - 1,
                        old(self).contours_dv().last().push(old(self).points@.len() as u32),
                    ));
                }
                r
            },
        }
    }

    /// Flattens a quadratic bezier segment from the pen position
    /// through the control point `(x1, y1)` to `(x, y)` into
    /// `quad_interpolation_steps` straight segments. The first sample
    /// is skipped because the start point is already present; every
    /// following sample is evaluated from the pen position that the
    /// previous sample left behind.
    pub fn quad_to(&mut self, x1: i64, y1: i64, x: i64, y: i64) -> (r: Result<(), MeshTextError>)
        requires
            old(self).wf(),
        ensures
            final(self).wf(),
            final(self).font_height == old(self).font_height,
            final(self).quality == old(self).quality,
            final(self).start_index == old(self).start_index,
            ({
                let n = old(self).quality.quad_interpolation_steps as int;
                let h = old(self).font_height as int;
                let cur = (old(self).current_point.x as int, old(self).current_point.y as int);
                let c = (x1 as int, y1 as int);
                let e = (x as int, y as int);
                &&& (r is Ok <==> raw_ok(c.0, c.1) && raw_ok(e.0, e.1) && (n == 0 || (
                    old(self).contours@.len() > 0
                        && old(self).points@.len() + n <= 0xFFFF_FFFF
                        && forall|i: int|
                            1 <= i <= n ==> coord_ok(
                                norm_pair(#[trigger] quad_flatten(cur, c, e, i, n), h),
                            ))))
                &&& r is Ok ==> final(self).points@ == old(self).points@ + quad_samples(
                    cur, c, e, n, h, n,
                )
                &&& r is Ok && n == 0 ==> final(self).same_state(old(self))
                &&& r is Ok && n > 0 ==> {
                    &&& final(self).contours_dv() == old(self).contours_dv().update(
                        old(self).contours_dv().len() - 1,
                        old(self).contours_dv().last() + index_run(
                            old(self).points@.len() as int,
                            n,
                        ),
                    )
                    &&& (final(self).current_point.x as int, final(self).current_point.y as int)
                        == quad_flatten(cur, c, e, n, n)
                }
                &&& r is Err ==> r matches Err(MeshTextError::Outline(GlyphOutlineError))
            }),
    {
        if x1 < -RAW_LIMIT || x1 > RAW_LIMIT || y1 < -RAW_LIMIT || y1 > RAW_LIMIT
            || x < -RAW_LIMIT || x > RAW_LIMIT || y < -RAW_LIMIT || y > RAW_LIMIT {
            return Err(MeshTextError::Outline(GlyphOutlineError));
        }
        let p1 = FixedPoint { x: x1, y: y1 };
        let p2 = FixedPoint { x, y };
        let n: u32 = self.quality.quad_interpolation_steps;
        let ghost cur = (old(self).current_point.x as int, old(self).current_point.y as int);
        let ghost c = (x1 as int, y1 as int);
        let ghost e = (x as int, y as int);
        let ghost h = old(self).font_height as int;
        let ghost old_len = old(self).points@.len() as int;
        let mut step: u64 = 1;
        while step <= n as u64
            invariant
                1 <= step <= n + 1,
                self.wf(),
                self.font_height == old(self).font_height,
                self.quality == old(self).quality,
                self.start_index == old(self).start_index,
                n == old(self).quality.quad_interpolation_steps,
                in_raw_range(p1),
                in_raw_range(p2),
                p1.x == x1 && p1.y == y1 && p2.x == x && p2.y == y,
                cur == (old(self).current_point.x as int, old(self).current_point.y as int),
                c == (x1 as int, y1 as int) && e == (x as int, y as int),
                h == old(self).font_height as int,
                old_len == old(self).points@.len() as int,
                (self.current_point.x as int, self.current_point.y as int) == quad_flatten(
                    cur, c, e, step - 1, n as int,
                ),
                self.points@ == old(self).points@ + quad_samples(
                    cur, c, e, n as int, h, step - 1,
                ),
                forall|i: int|
                    1 <= i < step ==> coord_ok(
                        norm_pair(#[trigger] quad_flatten(cur, c, e, i, n as int), h),
                    ),
                step == 1 ==> self.contours_dv() == old(self).contours_dv(),
                step > 1 ==> old(self).contours@.len() > 0 && self.contours_dv() == old(
                    self,
                ).contours_dv().update(
                    old(self).contours_dv().len() - 1,
                    old(self).contours_dv().last() + index_run(old_len, step - 1),
                ),
            decreases n as int + 1 - step,
        {
            let p = point_on_quad(self.current_point, p1, p2, step as u32, n);
            proof {
                assert((p.x as int, p.y as int) == quad_flatten(cur, c, e, step as int, n as int));
            }
            match self.line_to(p.x, p.y) {
                Ok(()) => {},
                Err(err) => {
                    return Err(err);
                },
            }
            proof {
                assert(self.points@ =~= old(self).points@ + quad_samples(
                    cur, c, e, n as int, h, step as int,
                ));
                if step > 1 {
                    assert(self.contours_dv() =~~= old(self).contours_dv().update(
                        old(self).contours_dv().len() - 1,
                        old(self).contours_dv().last() + index_run(old_len, step as int),
                    ));
                } else {
                    assert(self.contours_dv() =~~= old(self).contours_dv().update(
                        old(self).contours_dv().len() - 1,
                        old(self).contours_dv().last() + index_run(old_len, 1),
                    ));
                }
            }
            step = step + 1;
        }
        proof {
            if n == 0 {
                assert(self.points@ =~= old(self).points@);
                assert(self.points@ =~= old(self).points@ + quad_samples(
                    cur, c, e, 0, h, 0,
                ));
            }
        }
        Ok(())
    }

    /// Flattens a cubic bezier segment from the pen position through
    /// the control points `(x1, y1)` and `(x2, y2)` to `(x, y)` into
    /// `cubic_interpolation_steps` straight segments, skipping the
    /// first sample.
    pub fn curve_to(
        &mut self,
        x1: i64,
        y1: i64,
        x2: i64,
        y2: i64,
        x: i64,
        y: i64,
    ) -> (r: Result<(), MeshTextError>)
        requires
            old(self).wf(),
        ensures
            final(self).wf(),
            final(self).font_height == old(self).font_height,
            final(self).quality == old(self).quality,
            final(self).start_index == old(self).start_index,
            ({
                let n = old(self).quality.cubic_interpolation_steps as int;
                let h = old(self).font_height as int;
                let cur = (old(self).current_point.x as int, old(self).current_point.y as int);
                let c1 = (x1 as int, y1 as int);
                let c2 = (x2 as int, y2 as int);
                let e = (x as int, y as int);
                &&& (r is Ok <==> raw_ok(c1.0, c1.1) && raw_ok(c2.0, c2.1) && raw_ok(e.0, e.1)
                    && (n == 0 || (old(self).contours@.len() > 0
                        && old(self).points@.len() + n <= 0xFFFF_FFFF
                        && forall|i: int|
                            1 <= i <= n ==> coord_ok(
                                norm_pair(#[trigger] cubic_flatten(cur, c1, c2, e, i, n), h),
                            ))))
                &&& r is Ok ==> final(self).points@ == old(self).points@ + cubic_samples(
                    cur, c1, c2, e, n, h, n,
                )
                &&& r is Ok && n == 0 ==> final(self).same_state(old(self))
                &&& r is Ok && n > 0 ==> {
                    &&& final(self).contours_dv() == old(self).contours_dv().update(
                        old(self).contours_dv().len() - 1,
                        old(self).contours_dv().last() + index_run(
                            old(self).points@.len() as int,
                            n,
                        ),
                    )
                    &&& (final(self).current_point.x as int, final(self).current_point.y as int)
                        == cubic_flatten(cur, c1, c2, e, n, n)
                }
                &&& r is Err ==> r matches Err(MeshTextError::Outline(GlyphOutlineError))
            }),
    {
        if x1 < -RAW_LIMIT || x1 > RAW_LIMIT || y1 < -RAW_LIMIT || y1 > RAW_LIMIT
            || x2 < -RAW_LIMIT || x2 > RAW_LIMIT || y2 < -RAW_LIMIT || y2 > RAW_LIMIT
            || x < -RAW_LIMIT || x > RAW_LIMIT || y < -RAW_LIMIT || y > RAW_LIMIT {
            return Err(MeshTextError::Outline(GlyphOutlineError));
        }
        let p1 = FixedPoint { x: x1, y: y1 };
        let p2 = FixedPoint { x: x2, y: y2 };
        let p3 = FixedPoint { x, y };
        let n: u32 = self.quality.cubic_interpolation_steps;
        let ghost cur = (old(self).current_point.x as int, old(self).current_point.y as int);
        let ghost c1 = (x1 as int, y1 as int);
        let ghost c2 = (x2 as int, y2 as int);
        let ghost e = (x as int, y as int);
        let ghost h = old(self).font_height as int;
        let ghost old_len = old(self).points@.len() as int;
        let mut step: u64 = 1;
        while step <= n as u64
            invariant
                1 <= step <= n + 1,
                self.wf(),
                self.font_height == old(self).font_height,
                self.quality == old(self).quality,
                self.start_index == old(self).start_index,
                n == old(self).quality.cubic_interpolation_steps,
                in_raw_range(p1),
                in_raw_range(p2),
                in_raw_range(p3),
                p1.x == x1 && p1.y == y1 && p2.x == x2 && p2.y == y2 && p3.x == x && p3.y == y,
                cur == (old(self).current_point.x as int, old(self).current_point.y as int),
                c1 == (x1 as int, y1 as int) && c2 == (x2 as int, y2 as int) && e == (
                    x as int,
                    y as int,
                ),
                h == old(self).font_height as int,
                old_len == old(self).points@.len() as int,
                (self.current_point.x as int, self.current_point.y as int) == cubic_flatten(
                    cur, c1, c2, e, step - 1, n as int,
                ),
                self.points@ == old(self).points@ + cubic_samples(
                    cur, c1, c2, e, n as int, h, step - 1,
                ),
                forall|i: int|
                    1 <= i < step ==> coord_ok(
                        norm_pair(#[trigger] cubic_flatten(cur, c1, c2, e, i, n as int), h),
                    ),
                step == 1 ==> self.contours_dv() == old(self).contours_dv(),
                step > 1 ==> old(self).contours@.len() > 0 && self.contours_dv() == old(
                    self,
                ).contours_dv().update(
                    old(self).contours_dv().len() - 1,
                    old(self).contours_dv().last() + index_run(old_len, step - 1),
                ),
            decreases n as int + 1 - step,
        {
            let p = point_on_cubic(self.current_point, p1, p2, p3, step as u32, n);
            proof {
                assert((p.x as int, p.y as int) == cubic_flatten(cur, c1, c2, e, step as int, n as int));
            }
            match self.line_to(p.x, p.y) {
                Ok(()) => {},
                Err(err) => {
                    return Err(err);
                },
            }
            proof {
                assert(self.points@ =~= old(self).points@ + cubic_samples(
                    cur, c1, c2, e, n as int, h, step as int,
                ));
                if step > 1 {
                    assert(self.contours_dv() =~~= old(self).contours_dv().update(
                        old(self).contours_dv().len() - 1,
                        old(self).contours_dv().last() + index_run(old_len, step as int),
                    ));
                } else {
                    assert(self.contours_dv() =~~= old(self).contours_dv().update(
                        old(self).contours_dv().len() - 1,
                        old(self).contours_dv().last() + index_run(old_len, 1),
                    ));
                }
            }
            step = step + 1;
        }
        proof {
            if n == 0 {
                assert(self.points@ =~= old(self).points@ + cubic_samples(
                    cur, c1, c2, e, 0, h, 0,
                ));
            }
        }
        Ok(())
    }

    /// Removes the duplicated closing point of the current contour and
    /// rewires its last index back to the contour's start, producing a
    /// proper cycle. Fails when the contour holds fewer than two
    /// entries, instead of corrupting the outline.
    pub fn close(&mut self) -> (r: Result<(), MeshTextError>)
        requires
            old(self).wf(),
        ensures
            final(self).wf(),
            final(self).font_height == old(self).font_height,
            final(self).quality == old(self).quality,
            final(self).start_index == old(self).start_index,
            final(self).current_point == old(self).current_point,
            if old(self).contours@.len() > 0 && old(self).contours_dv().last().len() >= 2
                && old(self).points@.len() > 0 && old(self).contours_dv().last().last() == old(
                self,
            ).points@.len() - 1 && old(self).start_index < old(self).points@.len() - 1 {
                &&& r is Ok
                &&& final(self).points@ == old(self).points@.drop_last()
                &&& final(self).contours_dv() == old(self).contours_dv().update(
                    old(self).contours_dv().len() - 1,
                    old(self).contours_dv().last().drop_last().push(old(self).start_index),
                )
            } else {
                &&& r matches Err(MeshTextError::Outline(GlyphOutlineError))
                &&& final(self).same_state(old(self))
            },
    {
        if self.contours.len() == 0 || self.points.len() == 0 {
            return Err(MeshTextError::Outline(GlyphOutlineError));
        }
        let last = self.contours.pop();
        match last {
            None => Err(MeshTextError::Outline(GlyphOutlineError)),
            Some(mut contour) => {
                if contour.len() < 2 || contour[contour.len() - 1] != (self.points.len() - 1)
                    as u32 || self.start_index as usize >= self.points.len() - 1 {
                    self.contours.push(contour);
                    proof {
                        assert(final(self).contours@ =~= old(self).contours@);
                    }
                    return Err(MeshTextError::Outline(GlyphOutlineError));
                }
                contour.pop();
                contour.push(self.start_index);
                self.contours.push(contour);
                self.points.pop();
                proof {
                    assert(final(self).contours_dv() =~= old(self).contours_dv().update(
                        old(self).contours_dv().len() - 1,
                        old(self).contours_dv().last().drop_last().push(old(self).start_index),
                    ));
                }
                Ok(())
            },
        }
    }
}

} // verus!
