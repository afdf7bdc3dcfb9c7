//! The geometry assembler: consuming one feature's coordinate/topology event
//! stream and building projected polygon paths, tracking exterior rings and
//! holes, with malformed orderings surfaced as `GeometryMalformed`.

use vstd::prelude::*;

use crate::error::MapError;
use crate::geom::Coord;
use crate::viewport::{project_axis, project_axis_spec, CENTER_MAX, EFF_RES_MAX,
    PROJ_CENTER_MAX};

verus! {

/// Bound on the magnitude of a projected (pixel-space) coordinate; points
/// outside this window cannot be represented and are rejected during
/// assembly. The bound keeps every cross product of the tessellation step
/// inside fixed-width arithmetic.
pub const COORD_MAX: i64 = 0x4000_0000;

/// A projected point lies in the representable pixel-space window.
pub open spec fn coord_bounded(c: Coord) -> bool {
    -COORD_MAX <= c.x <= COORD_MAX && -COORD_MAX <= c.y <= COORD_MAX
}

/// One event of a feature's geometry stream, in stream order: a ring is
/// announced by `RingBegin`, its points follow as `Coordinate` events indexed
/// from zero within the ring, and `PolygonEnd` seals the rings gathered so
/// far into one polygon (a feature may contain several polygons).
#[derive(Clone, Copy, PartialEq, Eq, Structural, Debug)]
pub enum GeomEvent {
    /// One source-space point; `idx` is its position within the current ring.
    Coordinate { x: i64, y: i64, idx: usize },
    /// Start of a ring; `idx` is the ring's position within the current
    /// polygon and `exterior` must hold exactly for the first ring.
    /// `expected` is the producer's size hint and carries no meaning here.
    RingBegin { exterior: bool, expected: usize, idx: usize },
    /// Seals the current polygon.
    PolygonEnd,
}

/// Ring sizes of a flattened polygon: with hole starts `h` over `n` points,
/// every ring (the exterior before `h[0]`, each hole between neighbours,
/// and the last hole up to `n`) has at least three points.
pub open spec fn ring_sizes_ok(h: Seq<usize>, n: int) -> bool {
    if h.len() == 0 {
        n >= 3
    } else {
        &&& h[0] >= 3
        &&& n - h[h.len() - 1] >= 3
        &&& forall|r: int| 0 <= r < h.len() - 1 ==> h[r + 1] - #[trigger] h[r] >= 3
    }
}

/// An assembled polygon: projected points of all rings flattened in order,
/// the first ring exterior, and the start index of each hole ring.
#[derive(Debug)]
pub struct PolygonPath {
    /// Projected points of the exterior ring followed by each hole ring.
    pub coords: Vec<Coord>,
    /// Start index of each hole ring within `coords`, in ascending order.
    pub hole_starts: Vec<usize>,
}

impl PolygonPath {
    /// Well-formed: points are bounded, hole starts ascend strictly inside
    /// the point range, and every ring has at least three points.
    pub open spec fn wf(self) -> bool {
        let n = self.coords@.len() as int;
        let h = self.hole_starts@;
        &&& n >= 3
        &&& forall|i: int| 0 <= i < n ==> coord_bounded(self.coords@[i])
        &&& forall|r: int| 0 <= r < h.len() ==> 0 < #[trigger] h[r] < n
        &&& forall|r: int| 0 <= r < h.len() - 1 ==> #[trigger] h[r] < h[r + 1]
        &&& ring_sizes_ok(h, n)
    }
}

/// From the size conditions alone, every hole start lies strictly between
/// zero and the point count, and the starts ascend strictly.
proof fn lemma_holes_bounded(h: Seq<usize>, n: int)
    requires
        h.len() >= 1,
        h[0] >= 3,
        n - h[h.len() - 1] >= 3,
        forall|r: int| 0 <= r < h.len() - 1 ==> h[r + 1] - #[trigger] h[r] >= 3,
    ensures
        forall|r: int| 0 <= r < h.len() ==> 0 < #[trigger] h[r] < n,
        forall|r: int| 0 <= r < h.len() - 1 ==> #[trigger] h[r] < h[r + 1],
    decreases h.len(),
{
    if h.len() == 1 {
    } else {
        let h2 = h.drop_last();
        let n2 = h[h.len() - 1] as int;
        assert forall|r: int| 0 <= r < h2.len() - 1 implies h2[r + 1] - #[trigger] h2[r] >= 3 by {
            assert(h2[r] == h[r]);
            assert(h2[r + 1] == h[r + 1]);
        }
        assert(h2[h2.len() - 1] == h[h.len() - 2]);
        assert(h[h.len() - 1] - h[h.len() - 2] >= 3);
        lemma_holes_bounded(h2, n2);
        assert forall|r: int| 0 <= r < h.len() implies 0 < #[trigger] h[r] < n by {
            if r < h.len() - 1 {
                assert(h2[r] == h[r]);
                assert(0 < h2[r] < n2);
            }
        }
        assert forall|r: int| 0 <= r < h.len() - 1 implies #[trigger] h[r] < h[r + 1] by {
            assert(h[r + 1] - h[r] >= 3);
        }
    }
}

/// The assembler's state while it consumes one feature's event stream.
///
/// `center` and `resolution` are the projection parameters of the current
/// reload; `coords` and `hole_starts` gather the current polygon; `rings`
/// counts the rings begun in it and `cur_start` is the start index of the
/// open ring.
pub struct Assembler {
    /// Projected center of the viewport, in source units.
    pub center: Coord,
    /// Effective resolution, in source units per pixel.
    pub resolution: i64,
    /// Projected points gathered for the current polygon.
    pub coords: Vec<Coord>,
    /// Start index of each hole ring gathered so far.
    pub hole_starts: Vec<usize>,
    /// Rings begun in the current polygon.
    pub rings: usize,
    /// Start index of the open ring within `coords`.
    pub cur_start: usize,
}

impl Assembler {
    /// Well-formed assembler state.
    pub open spec fn wf(self) -> bool {
        &&& -PROJ_CENTER_MAX <= self.center.x <= PROJ_CENTER_MAX
        &&& -PROJ_CENTER_MAX <= self.center.y <= PROJ_CENTER_MAX
        &&& 1 <= self.resolution <= EFF_RES_MAX
        &&& forall|i: int| 0 <= i < self.coords@.len() ==> coord_bounded(self.coords@[i])
        &&& self.rings == 0 ==> self.coords@.len() == 0 && self.hole_starts@.len() == 0
            && self.cur_start == 0
        &&& self.rings >= 1 ==> self.hole_starts@.len() == self.rings - 1
        &&& self.cur_start <= self.coords@.len()
        &&& forall|r: int| 0 <= r < self.hole_starts@.len()
            ==> self.hole_starts@[r] <= self.coords@.len()
        &&& forall|r: int| 0 <= r < self.hole_starts@.len() - 1
            ==> #[trigger] self.hole_starts@[r] <= self.hole_starts@[r + 1]
    }

    /// No polygon is in progress.
    pub open spec fn is_clean(self) -> bool {
        self.rings == 0
    }

    /// A coordinate event is accepted: a ring is open, the index matches the
    /// point's position in it, and both the source value and its projection
    /// lie in the representable windows.
    pub open spec fn coordinate_ok(self, x: i64, y: i64, idx: usize) -> bool {
        &&& self.rings > 0
        &&& idx == self.coords@.len() - self.cur_start
        &&& -CENTER_MAX <= x <= CENTER_MAX
        &&& -CENTER_MAX <= y <= CENTER_MAX
        &&& -COORD_MAX
            <= project_axis_spec(x as int, self.center.x as int, self.resolution as int)
            <= COORD_MAX
        &&& -COORD_MAX
            <= project_axis_spec(y as int, self.center.y as int, self.resolution as int)
            <= COORD_MAX
    }

    /// A ring-begin event is accepted: rings arrive in order and exactly the
    /// first one is exterior.
    pub open spec fn ring_begin_ok(self, exterior: bool, idx: usize) -> bool {
        &&& idx == self.rings
        &&& exterior == (idx == 0)
        &&& self.rings < usize::MAX
    }

    /// A polygon-end event is accepted: at least one ring was begun and
    /// every ring has at least three points.
    pub open spec fn polygon_end_ok(self) -> bool {
        self.rings > 0 && ring_sizes_ok(self.hole_starts@, self.coords@.len() as int)
    }

    /// A fresh assembler for the given projection parameters.
    pub fn new(center: Coord, resolution: i64) -> (a: Assembler)
        requires
            -PROJ_CENTER_MAX <= center.x <= PROJ_CENTER_MAX,
            -PROJ_CENTER_MAX <= center.y <= PROJ_CENTER_MAX,
            1 <= resolution <= EFF_RES_MAX,
        ensures
            a.wf(),
            a.is_clean(),
            a.center == center,
            a.resolution == resolution,
    {
        Assembler {
            center,
            resolution,
            coords: Vec::new(),
            hole_starts: Vec::new(),
            rings: 0,
            cur_start: 0,
        }
    }

    /// Consumes one coordinate event: the point is projected and appended to
    /// the open ring, or the event is rejected as `GeometryMalformed` when no
    /// ring is open, the in-ring index is out of order, or the point falls
    /// outside the representable windows.
    pub fn coordinate(&mut self, x: i64, y: i64, idx: usize) -> (r: Result<(), MapError>)
        requires
            old(self).wf(),
        ensures
            final(self).wf(),
            final(self).center == old(self).center,
            final(self).resolution == old(self).resolution,
            final(self).rings == old(self).rings,
            final(self).cur_start == old(self).cur_start,
            final(self).hole_starts@ == old(self).hole_starts@,
            (r is Ok) == old(self).coordinate_ok(x, y, idx),
            r is Err ==> final(self).coords@ == old(self).coords@
                && r == Err::<(), MapError>(MapError::GeometryMalformed),
            r is Ok ==> final(self).coords@.len() == old(self).coords@.len() + 1
                && final(self).coords@.drop_last() == old(self).coords@
                && final(self).coords@.last().x == project_axis_spec(
                    x as int, old(self).center.x as int, old(self).resolution as int)
                && final(self).coords@.last().y == project_axis_spec(
                    y as int, old(self).center.y as int, old(self).resolution as int),
    {
        if self.rings == 0 {
            return Err(MapError::GeometryMalformed);
        }
        let expected: usize = self.coords.len() - self.cur_start;
        if idx != expected {
            return Err(MapError::GeometryMalformed);
        }
        if x < -CENTER_MAX || x > CENTER_MAX || y < -CENTER_MAX || y > CENTER_MAX {
            return Err(MapError::GeometryMalformed);
        }
        let px: i64 = project_axis(x, self.center.x, self.resolution);
        let py: i64 = project_axis(y, self.center.y, self.resolution);
        if px < -COORD_MAX || px > COORD_MAX || py < -COORD_MAX || py > COORD_MAX {
            return Err(MapError::GeometryMalformed);
        }
        self.coords.push(Coord { x: px, y: py });
        proof {
            assert(self.coords@.drop_last() =~= old(self).coords@);
        }
        Ok(())
    }

    /// Consumes one ring-begin event: the first ring must be exterior and
    /// rings must arrive in order; a hole ring's start index is recorded.
    pub fn ring_begin(&mut self, exterior: bool, idx: usize) -> (r: Result<(), MapError>)
        requires
            old(self).wf(),
        ensures
            final(self).wf(),
            final(self).center == old(self).center,
            final(self).resolution == old(self).resolution,
            final(self).coords@ == old(self).coords@,
            (r is Ok) == old(self).ring_begin_ok(exterior, idx),
            r is Err ==> final(self).rings == old(self).rings
                && final(self).cur_start == old(self).cur_start
                && final(self).hole_starts@ == old(self).hole_starts@
                && r == Err::<(), MapError>(MapError::GeometryMalformed),
            r is Ok ==> final(self).rings == old(self).rings + 1
                && final(self).cur_start == old(self).coords@.len()
                && (old(self).rings == 0 ==> final(self).hole_starts@
                    == old(self).hole_starts@)
                && (old(self).rings > 0 ==> final(self).hole_starts@
                    == old(self).hole_starts@.push((old(self).coords@.len() as usize))),
    {
        if idx != self.rings {
            return Err(MapError::GeometryMalformed);
        }
        if exterior != (idx == 0) {
            return Err(MapError::GeometryMalformed);
        }
        if self.rings == usize::MAX {
            return Err(MapError::GeometryMalformed);
        }
        if self.rings > 0 {
            self.hole_starts.push(self.coords.len());
        }
        self.cur_start = self.coords.len();
        self.rings = self.rings + 1;
        Ok(())
    }

    /// Consumes one polygon-end event: the gathered rings are sealed into a
    /// `PolygonPath` and the assembler resets for the next polygon of the
    /// same feature. Zero rings, or any ring with fewer than three points,
    /// is rejected as `GeometryMalformed` with the state left unchanged.
    #[verifier::rlimit(50)]
    pub fn polygon_end(&mut self) -> (r: Result<PolygonPath, MapError>)
        requires
            old(self).wf(),
        ensures
            final(self).wf(),
            final(self).center == old(self).center,
            final(self).resolution == old(self).resolution,
            (r is Ok) == old(self).polygon_end_ok(),
            match r {
                Ok(p) => {
                    &&& p.coords@ == old(self).coords@
                    &&& p.hole_starts@ == old(self).hole_starts@
                    &&& p.wf()
                    &&& final(self).is_clean()
                },
                Err(e) => {
                    &&& e == MapError::GeometryMalformed
                    &&& final(self).coords@ == old(self).coords@
                    &&& final(self).hole_starts@ == old(self).hole_starts@
                    &&& final(self).rings == old(self).rings
                    &&& final(self).cur_start == old(self).cur_start
                },
            },
    {
        if self.rings == 0 {
            return Err(MapError::GeometryMalformed);
        }
        let n: usize = self.coords.len();
        let holes: usize = self.hole_starts.len();
        if holes == 0 {
            if n < 3 {
                return Err(MapError::GeometryMalformed);
            }
        } else {
            if self.hole_starts[0] < 3 {
                return Err(MapError::GeometryMalformed);
            }
            let last: usize = self.hole_starts[holes - 1];
            if n - last < 3 {
                return Err(MapError::GeometryMalformed);
            }
            let mut r: usize = 0;
            while r < holes - 1
                invariant
                    *self == *old(self),
                    old(self).wf(),
                    old(self).rings > 0,
                    holes == self.hole_starts@.len(),
                    holes >= 1,
                    n == self.coords@.len(),
                    self.hole_starts@[0] >= 3,
                    n - self.hole_starts@[holes - 1] >= 3,
                    r <= holes - 1,
                    forall|k: int| 0 <= k < r
                        ==> self.hole_starts@[k + 1] - #[trigger] self.hole_starts@[k] >= 3,
                decreases holes - 1 - r,
            {
                if self.hole_starts[r + 1] < self.hole_starts[r]
                    || self.hole_starts[r + 1] - self.hole_starts[r] < 3 {
                    proof {
                        let h = self.hole_starts@;
                        assert(h[r as int + 1] - h[r as int] < 3);
                        assert(!ring_sizes_ok(h, n as int));
                    }
                    return Err(MapError::GeometryMalformed);
                }
                r = r + 1;
            }
            proof {
                lemma_holes_bounded(self.hole_starts@, n as int);
            }
        }
        let mut coords: Vec<Coord> = Vec::new();
        let mut hole_starts: Vec<usize> = Vec::new();
        core::mem::swap(&mut coords, &mut self.coords);
        core::mem::swap(&mut hole_starts, &mut self.hole_starts);
        self.rings = 0;
        self.cur_start = 0;
        Ok(PolygonPath { coords, hole_starts })
    }
}

/// How many `PolygonEnd` events a stream holds; a well-formed stream yields
/// exactly this many polygons.
pub open spec fn count_polygon_ends(s: Seq<GeomEvent>) -> int
    decreases s.len(),
{
    if s.len() == 0 {
        0
    } else {
        count_polygon_ends(s.drop_last()) + if s.last() is PolygonEnd {
            1int
        } else {
            0int
        }
    }
}

/// The part of the assembler's state that decides whether a stream is
/// accepted: how many rings are begun, where the open ring starts, how many
/// points are gathered, and the recorded hole starts.
pub struct StreamState {
    pub rings: int,
    pub cur_start: int,
    pub ncoords: int,
    pub holes: Seq<usize>,
}

/// The state before any event.
pub open spec fn stream_init() -> StreamState {
    StreamState { rings: 0, cur_start: 0, ncoords: 0, holes: Seq::empty() }
}

impl Assembler {
    /// The abstract stream state this assembler is in.
    pub open spec fn model(self) -> StreamState {
        StreamState {
            rings: self.rings as int,
            cur_start: self.cur_start as int,
            ncoords: self.coords@.len() as int,
            holes: self.hole_starts@,
        }
    }
}

/// Whether one event is accepted in the given stream state; it mirrors the
/// acceptance conditions of the three assembler methods.
pub open spec fn step_ok(st: StreamState, e: GeomEvent, center: Coord, resolution: i64)
    -> bool {
    match e {
        GeomEvent::Coordinate { x, y, idx } => {
            &&& st.rings > 0
            &&& idx == st.ncoords - st.cur_start
            &&& -CENTER_MAX <= x <= CENTER_MAX
            &&& -CENTER_MAX <= y <= CENTER_MAX
            &&& -COORD_MAX
                <= project_axis_spec(x as int, center.x as int, resolution as int)
                <= COORD_MAX
            &&& -COORD_MAX
                <= project_axis_spec(y as int, center.y as int, resolution as int)
                <= COORD_MAX
        }
        GeomEvent::RingBegin { exterior, expected: _, idx } => {
            idx == st.rings && exterior == (idx == 0) && st.rings < usize::MAX
        }
        GeomEvent::PolygonEnd => st.rings > 0 && ring_sizes_ok(st.holes, st.ncoords),
    }
}

/// The stream state after one accepted event.
pub open spec fn step_next(st: StreamState, e: GeomEvent) -> StreamState {
    match e {
        GeomEvent::Coordinate { x: _, y: _, idx: _ } => StreamState {
            rings: st.rings,
            cur_start: st.cur_start,
            ncoords: st.ncoords + 1,
            holes: st.holes,
        },
        GeomEvent::RingBegin { exterior: _, expected: _, idx: _ } => StreamState {
            rings: st.rings + 1,
            cur_start: st.ncoords,
            ncoords: st.ncoords,
            holes: if st.rings == 0 {
                st.holes
            } else {
                st.holes.push(st.ncoords as usize)
            },
        },
        GeomEvent::PolygonEnd => stream_init(),
    }
}

/// Whether the remaining events are accepted from the given state, with no
/// polygon left open at the end.
pub open spec fn stream_ok_from(st: StreamState, events: Seq<GeomEvent>, center: Coord,
    resolution: i64) -> bool
    decreases events.len(),
{
    if events.len() <= 0 {
        st.rings == 0
    } else {
        step_ok(st, events.first(), center, resolution)
            && stream_ok_from(step_next(st, events.first()), events.drop_first(), center,
                resolution)
    }
}

/// Whether a whole event stream is well formed under the given projection:
/// assembly succeeds on exactly these streams.
pub open spec fn stream_ok(events: Seq<GeomEvent>, center: Coord, resolution: i64) -> bool {
    stream_ok_from(stream_init(), events, center, resolution)
}

/// Assembles one feature's whole event stream into its polygon paths.
///
/// Assembly succeeds exactly on the well-formed streams (`stream_ok`). Every
/// malformed ordering — a coordinate outside any ring, an out-of-order ring
/// or point index, a hole before the exterior ring, a ring with fewer than
/// three points, or a polygon left open at the end of the stream — is
/// reported as `GeometryMalformed`.
pub fn assemble_feature(events: &Vec<GeomEvent>, center: Coord, resolution: i64)
    -> (r: Result<Vec<PolygonPath>, MapError>)
    requires
        -PROJ_CENTER_MAX <= center.x <= PROJ_CENTER_MAX,
        -PROJ_CENTER_MAX <= center.y <= PROJ_CENTER_MAX,
        1 <= resolution <= EFF_RES_MAX,
    ensures
        (r is Ok) == stream_ok(events@, center, resolution),
        match r {
            Ok(paths) => {
                &&& forall|i: int| 0 <= i < paths@.len() ==> (#[trigger] paths@[i]).wf()
                &&& paths@.len() == count_polygon_ends(events@)
            },
            Err(e) => e == MapError::GeometryMalformed,
        },
{
    let mut assembler = Assembler::new(center, resolution);
    let mut out: Vec<PolygonPath> = Vec::new();
    let mut i: usize = 0;
    proof {
        assert(events@.subrange(0, 0) =~= Seq::<GeomEvent>::empty());
        assert(events@.skip(0) =~= events@);
        assert(assembler.model().holes =~= stream_init().holes);
        assert(assembler.model() == stream_init());
    }
    while i < events.len()
        invariant
            i <= events@.len(),
            assembler.wf(),
            assembler.center == center,
            assembler.resolution == resolution,
            forall|k: int| 0 <= k < out@.len() ==> (#[trigger] out@[k]).wf(),
            out@.len() == count_polygon_ends(events@.subrange(0, i as int)),
            stream_ok(events@, center, resolution) == stream_ok_from(
                assembler.model(), events@.skip(i as int), center, resolution),
        decreases events@.len() - i,
    {
        let ghost pre = events@.subrange(0, i as int);
        let ghost rest = events@.skip(i as int);
        let ghost st = assembler.model();
        proof {
            assert(rest.len() == events@.len() - i);
            assert(rest.first() == events@[i as int]);
            assert(rest.drop_first() =~= events@.skip(i as int + 1));
        }
        match events[i] {
            GeomEvent::Coordinate { x, y, idx } => {
                let c = assembler.coordinate(x, y, idx);
                if c.is_err() {
                    proof {
                        assert(!stream_ok_from(st, rest, center, resolution));
                    }
                    return Err(MapError::GeometryMalformed);
                }
                proof {
                    assert(assembler.model().holes =~= step_next(st, rest.first()).holes);
                    assert(assembler.model() == step_next(st, rest.first()));
                }
            }
            GeomEvent::RingBegin { exterior, expected: _, idx } => {
                let c = assembler.ring_begin(exterior, idx);
                if c.is_err() {
                    proof {
                        assert(!stream_ok_from(st, rest, center, resolution));
                    }
                    return Err(MapError::GeometryMalformed);
                }
                proof {
                    assert(assembler.model().holes =~= step_next(st, rest.first()).holes);
                    assert(assembler.model() == step_next(st, rest.first()));
                }
            }
            GeomEvent::PolygonEnd => {
                match assembler.polygon_end() {
                    Ok(p) => {
                        out.push(p);
                        proof {
                            assert(assembler.model().holes
                                =~= step_next(st, rest.first()).holes);
                            assert(assembler.model() == step_next(st, rest.first()));
                        }
                    }
                    Err(_) => {
                        proof {
                            assert(!stream_ok_from(st, rest, center, resolution));
                        }
                        return Err(MapError::GeometryMalformed);
                    }
                }
            }
        }
        proof {
            assert(events@.subrange(0, i as int + 1).drop_last() =~= pre);
            assert(events@.subrange(0, i as int + 1).last() == events@[i as int]);
        }
        i = i + 1;
    }
    proof {
        assert(events@.skip(i as int) =~= Seq::<GeomEvent>::empty());
        assert(events@.subrange(0, events@.len() as int) =~= events@);
    }
    if !(assembler.rings == 0) {
        return Err(MapError::GeometryMalformed);
    }
    Ok(out)
}

} // verus!
