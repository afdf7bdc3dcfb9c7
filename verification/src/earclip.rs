//! The tessellation strategy: ear clipping with explicit hole bridging.
//!
//! A polygon's holes are first joined to the outline by keyhole bridges
//! (each bridge duplicates one outline and one hole vertex in the working
//! cycle), then ears are clipped off the combined cycle one triangle at a
//! time. The triangles' index values point into the polygon's own point
//! buffer, zero-based.
//!
//! Preconditions in the geometric sense — a non-self-intersecting outline
//! and holes fully contained in it — are not checked; on inputs that violate
//! them no ear or no bridge may be found and the polygon is rejected with
//! `TessellationFailure` instead of a bogus triangulation.

use vstd::prelude::*;

use crate::assemble::{coord_bounded, PolygonPath};
use crate::error::MapError;
use crate::geom::Coord;

verus! {

/// Twice the signed area of the triangle `(a, b, c)`: positive when the
/// three points turn counterclockwise.
pub open spec fn cross_spec(a: Coord, b: Coord, c: Coord) -> int {
    (b.x - a.x) * (c.y - a.y) - (b.y - a.y) * (c.x - a.x)
}

/// Computes `cross_spec` exactly in 128-bit arithmetic.
fn cross(a: Coord, b: Coord, c: Coord) -> (r: i128)
    requires
        coord_bounded(a),
        coord_bounded(b),
        coord_bounded(c),
    ensures
        r == cross_spec(a, b, c),
{
    let abx: i64 = b.x - a.x;
    let aby: i64 = b.y - a.y;
    let acx: i64 = c.x - a.x;
    let acy: i64 = c.y - a.y;
    proof {
        assert((abx as int) * (acy as int) - (aby as int) * (acx as int)
            == cross_spec(a, b, c));
        assert(-0x4000_0000_0000_0000 <= (abx as int) * (acy as int) <= 0x4000_0000_0000_0000)
            by (nonlinear_arith)
            requires
                -0x8000_0000 <= abx as int <= 0x8000_0000,
                -0x8000_0000 <= acy as int <= 0x8000_0000,
        ;
        assert(-0x4000_0000_0000_0000 <= (aby as int) * (acx as int) <= 0x4000_0000_0000_0000)
            by (nonlinear_arith)
            requires
                -0x8000_0000 <= aby as int <= 0x8000_0000,
                -0x8000_0000 <= acx as int <= 0x8000_0000,
        ;
    }
    (abx as i128) * (acy as i128) - (aby as i128) * (acx as i128)
}

/// Whether `p` lies inside or on the counterclockwise triangle `(a, b, c)`.
pub open spec fn in_triangle_spec(a: Coord, b: Coord, c: Coord, p: Coord) -> bool {
    cross_spec(a, b, p) >= 0 && cross_spec(b, c, p) >= 0 && cross_spec(c, a, p) >= 0
}

/// Decides `in_triangle_spec`.
fn point_in_triangle(a: Coord, b: Coord, c: Coord, p: Coord) -> (r: bool)
    requires
        coord_bounded(a),
        coord_bounded(b),
        coord_bounded(c),
        coord_bounded(p),
    ensures
        r == in_triangle_spec(a, b, c, p),
{
    cross(a, b, p) >= 0 && cross(b, c, p) >= 0 && cross(c, a, p) >= 0
}

/// Whether the open segments `p q` and `u v` properly cross (each segment's
/// endpoints lie strictly on opposite sides of the other's line); touching
/// at an endpoint does not count.
fn segments_cross(p: Coord, q: Coord, u: Coord, v: Coord) -> bool
    requires
        coord_bounded(p),
        coord_bounded(q),
        coord_bounded(u),
        coord_bounded(v),
{
    let c1 = cross(p, q, u);
    let c2 = cross(p, q, v);
    let c3 = cross(u, v, p);
    let c4 = cross(u, v, q);
    ((c1 > 0 && c2 < 0) || (c1 < 0 && c2 > 0)) && ((c3 > 0 && c4 < 0) || (c3 < 0 && c4 > 0))
}

/// Whether the candidate bridge from `p` to `q` crosses any edge of the
/// ring `[rs, re)` of the polygon.
fn ring_blocks(path: &PolygonPath, p: Coord, q: Coord, rs: usize, re: usize) -> bool
    requires
        path.wf(),
        coord_bounded(p),
        coord_bounded(q),
        rs < re <= path.coords@.len(),
{
    let mut i: usize = rs;
    while i < re
        invariant
            path.wf(),
            coord_bounded(p),
            coord_bounded(q),
            rs <= i,
            rs < re <= path.coords@.len(),
        decreases re - i,
    {
        let nxt: usize = if i + 1 < re { i + 1 } else { rs };
        let u = path.coords[i];
        let v = path.coords[nxt];
        if segments_cross(p, q, u, v) {
            return true;
        }
        i = i + 1;
    }
    false
}

/// Whether the candidate bridge from `p` to `q` crosses no edge of any of
/// the polygon's rings.
fn bridge_visible(path: &PolygonPath, p: Coord, q: Coord) -> bool
    requires
        path.wf(),
        coord_bounded(p),
        coord_bounded(q),
{
    let n: usize = path.coords.len();
    let holes: usize = path.hole_starts.len();
    let outer_end: usize = if holes > 0 { path.hole_starts[0] } else { n };
    if ring_blocks(path, p, q, 0, outer_end) {
        return false;
    }
    let mut r: usize = 0;
    while r < holes
        invariant
            path.wf(),
            coord_bounded(p),
            coord_bounded(q),
            n == path.coords@.len(),
            holes == path.hole_starts@.len(),
            r <= holes,
        decreases holes - r,
    {
        let rs: usize = path.hole_starts[r];
        let re: usize = if r + 1 < holes { path.hole_starts[r + 1] } else { n };
        if ring_blocks(path, p, q, rs, re) {
            return false;
        }
        r = r + 1;
    }
    true
}

/// Builds the initial working cycle: the outline's indices, with each hole
/// joined in by the first visible keyhole bridge. Each bridge adds two
/// duplicate entries, so the cycle holds `n + 2 * holes` entries over the
/// polygon's `n` points. A hole with no visible bridge (possible only when
/// the strategy's geometric preconditions are violated) yields
/// `TessellationFailure`.
fn build_work(path: &PolygonPath) -> (r: Result<Vec<u32>, MapError>)
    requires
        path.wf(),
        path.coords@.len() <= u32::MAX,
    ensures
        match r {
            Ok(w) => {
                &&& w@.len() == path.coords@.len() + 2 * path.hole_starts@.len()
                &&& forall|i: int| 0 <= i < w@.len()
                    ==> (#[trigger] w@[i] as int) < path.coords@.len()
            },
            Err(e) => e == MapError::TessellationFailure,
        },
        path.hole_starts@.len() == 0 ==> r is Ok,
{
    let n: usize = path.coords.len();
    let holes: usize = path.hole_starts.len();
    let outer_end: usize = if holes > 0 { path.hole_starts[0] } else { n };
    let mut work: Vec<u32> = Vec::new();
    let mut i: usize = 0;
    while i < outer_end
        invariant
            i <= outer_end,
            outer_end <= n,
            n == path.coords@.len(),
            n <= u32::MAX,
            work@.len() == i,
            forall|k: int| 0 <= k < work@.len()
                ==> (#[trigger] work@[k] as int) < path.coords@.len(),
        decreases outer_end - i,
    {
        work.push(i as u32);
        i = i + 1;
    }
    let mut r: usize = 0;
    while r < holes
        invariant
            path.wf(),
            r <= holes,
            n == path.coords@.len(),
            n <= u32::MAX,
            holes == path.hole_starts@.len(),
            work@.len() == (if r < holes { path.hole_starts@[r as int] as int } else { n as int })
                + 2 * r,
            forall|k: int| 0 <= k < work@.len()
                ==> (#[trigger] work@[k] as int) < path.coords@.len(),
        decreases holes - r,
    {
        let hs: usize = path.hole_starts[r];
        let he: usize = if r + 1 < holes { path.hole_starts[r + 1] } else { n };
        let m: usize = he - hs;
        let wlen: usize = work.len();
        let mut found: bool = false;
        let mut a_pos: usize = 0;
        let mut b_idx: usize = 0;
        let mut bi: usize = hs;
        while bi < he && !found
            invariant
                path.wf(),
                coord_bounded_all(path.coords@),
                n == path.coords@.len(),
                holes == path.hole_starts@.len(),
                r < holes,
                hs <= bi,
                hs < he <= n,
                wlen == work@.len(),
                forall|k: int| 0 <= k < work@.len()
                    ==> (#[trigger] work@[k] as int) < path.coords@.len(),
                found ==> a_pos < wlen && hs <= b_idx < he,
            decreases he - bi,
        {
            let mut ai: usize = 0;
            while ai < wlen && !found
                invariant
                    path.wf(),
                    n == path.coords@.len(),
                    ai <= wlen,
                    wlen == work@.len(),
                    bi < he <= n,
                    hs <= bi,
                    forall|k: int| 0 <= k < work@.len()
                        ==> (#[trigger] work@[k] as int) < path.coords@.len(),
                    found ==> a_pos < wlen && hs <= b_idx < he,
                decreases wlen - ai,
            {
                let p = path.coords[work[ai] as usize];
                let q = path.coords[bi];
                if bridge_visible(path, p, q) {
                    found = true;
                    a_pos = ai;
                    b_idx = bi;
                }
                ai = ai + 1;
            }
            bi = bi + 1;
        }
        if !found {
            return Err(MapError::TessellationFailure);
        }
        let mut nw: Vec<u32> = Vec::new();
        let mut t: usize = 0;
        while t <= a_pos
            invariant
                t <= a_pos + 1,
                a_pos < wlen,
                wlen == work@.len(),
                nw@.len() == t,
                forall|k: int| 0 <= k < nw@.len()
                    ==> (#[trigger] nw@[k] as int) < path.coords@.len(),
                forall|k: int| 0 <= k < work@.len()
                    ==> (#[trigger] work@[k] as int) < path.coords@.len(),
                n == path.coords@.len(),
            decreases a_pos + 1 - t,
        {
            nw.push(work[t]);
            t = t + 1;
        }
        let off: usize = b_idx - hs;
        let mut s: usize = 0;
        while s < m
            invariant
                s <= m,
                off < m,
                hs + m == he,
                he <= n,
                n <= u32::MAX,
                n == path.coords@.len(),
                nw@.len() == a_pos + 1 + s,
                forall|k: int| 0 <= k < nw@.len()
                    ==> (#[trigger] nw@[k] as int) < path.coords@.len(),
            decreases m - s,
        {
            let pos: usize = if s < m - off { off + s } else { s - (m - off) };
            let idx: usize = hs + pos;
            nw.push(idx as u32);
            s = s + 1;
        }
        nw.push(b_idx as u32);
        nw.push(work[a_pos]);
        let mut t2: usize = a_pos + 1;
        while t2 < wlen
            invariant
                a_pos + 1 <= t2 <= wlen,
                wlen == work@.len(),
                nw@.len() == a_pos + 1 + m + 2 + (t2 - a_pos - 1),
                forall|k: int| 0 <= k < nw@.len()
                    ==> (#[trigger] nw@[k] as int) < path.coords@.len(),
                forall|k: int| 0 <= k < work@.len()
                    ==> (#[trigger] work@[k] as int) < path.coords@.len(),
                n == path.coords@.len(),
            decreases wlen - t2,
        {
            nw.push(work[t2]);
            t2 = t2 + 1;
        }
        work = nw;
        r = r + 1;
    }
    Ok(work)
}

/// Every point of the sequence lies in the representable window.
pub open spec fn coord_bounded_all(s: Seq<Coord>) -> bool {
    forall|i: int| 0 <= i < s.len() ==> coord_bounded(#[trigger] s[i])
}

/// Clips ears off the working cycle until only one triangle remains.
///
/// Each step removes one cycle entry and emits one triangle, so a cycle of
/// `w` entries yields exactly `w - 2` triangles; when no ear can be found
/// (a degenerate or self-intersecting cycle) the polygon is rejected with
/// `TessellationFailure`.
fn clip_ears(coords: &Vec<Coord>, work_in: Vec<u32>) -> (r: Result<Vec<u32>, MapError>)
    requires
        coord_bounded_all(coords@),
        work_in@.len() >= 3,
        forall|i: int| 0 <= i < work_in@.len()
            ==> (#[trigger] work_in@[i] as int) < coords@.len(),
    ensures
        match r {
            Ok(t) => {
                &&& t@.len() == 3 * (work_in@.len() - 2)
                &&& forall|i: int| 0 <= i < t@.len()
                    ==> (#[trigger] t@[i] as int) < coords@.len()
            },
            Err(e) => e == MapError::TessellationFailure,
        },
        work_in@.len() == 3 ==> r is Ok,
{
    let mut work = work_in;
    let ghost n0 = work@.len();
    // Normalize the cycle to counterclockwise orientation.
    if work.len() > 0xFFFF_FFFFusize {
        return Err(MapError::TessellationFailure);
    }
    let area2: i128 = cycle_area2(coords, &work);
    if area2 < 0 {
        let mut rev: Vec<u32> = Vec::new();
        let mut i: usize = 0;
        let wl: usize = work.len();
        while i < wl
            invariant
                i <= wl,
                wl == work@.len(),
                rev@.len() == i,
                forall|k: int| 0 <= k < work@.len()
                    ==> (#[trigger] work@[k] as int) < coords@.len(),
                forall|k: int| 0 <= k < rev@.len()
                    ==> (#[trigger] rev@[k] as int) < coords@.len(),
            decreases wl - i,
        {
            rev.push(work[wl - 1 - i]);
            i = i + 1;
        }
        work = rev;
    }
    let mut tris: Vec<u32> = Vec::new();
    while work.len() > 3
        invariant
            coord_bounded_all(coords@),
            3 <= work@.len() <= n0,
            n0 == work_in@.len(),
            forall|i: int| 0 <= i < work@.len()
                ==> (#[trigger] work@[i] as int) < coords@.len(),
            tris@.len() == 3 * (n0 - work@.len()),
            forall|i: int| 0 <= i < tris@.len()
                ==> (#[trigger] tris@[i] as int) < coords@.len(),
        decreases work@.len(),
    {
        let wl: usize = work.len();
        let mut found: bool = false;
        let mut ear: usize = 0;
        let mut j: usize = 0;
        while j < wl && !found
            invariant
                coord_bounded_all(coords@),
                wl == work@.len(),
                wl > 3,
                j <= wl,
                forall|i: int| 0 <= i < work@.len()
                    ==> (#[trigger] work@[i] as int) < coords@.len(),
                found ==> ear < wl,
            decreases wl - j,
        {
            let ip: usize = if j == 0 { wl - 1 } else { j - 1 };
            let inx: usize = if j == wl - 1 { 0 } else { j + 1 };
            let a = coords[work[ip] as usize];
            let b = coords[work[j] as usize];
            let c = coords[work[inx] as usize];
            if cross(a, b, c) > 0 {
                let mut ok: bool = true;
                let mut k: usize = 0;
                while k < wl && ok
                    invariant
                        coord_bounded_all(coords@),
                        wl == work@.len(),
                        k <= wl,
                        ip < wl,
                        j < wl,
                        inx < wl,
                        forall|i: int| 0 <= i < work@.len()
                            ==> (#[trigger] work@[i] as int) < coords@.len(),
                        coord_bounded(a),
                        coord_bounded(b),
                        coord_bounded(c),
                    decreases wl - k,
                {
                    if k != ip && k != j && k != inx {
                        let p = coords[work[k] as usize];
                        let shares_corner = (p.x == a.x && p.y == a.y)
                            || (p.x == b.x && p.y == b.y) || (p.x == c.x && p.y == c.y);
                        if !shares_corner && point_in_triangle(a, b, c, p) {
                            ok = false;
                        }
                    }
                    k = k + 1;
                }
                if ok {
                    found = true;
                    ear = j;
                }
            }
            j = j + 1;
        }
        if !found {
            return Err(MapError::TessellationFailure);
        }
        let ip: usize = if ear == 0 { wl - 1 } else { ear - 1 };
        let inx: usize = if ear == wl - 1 { 0 } else { ear + 1 };
        tris.push(work[ip]);
        tris.push(work[ear]);
        tris.push(work[inx]);
        proof {
            work@.remove_ensures(ear as int);
        }
        work.remove(ear);
        proof {
            assert forall|i: int| 0 <= i < work@.len()
                implies (#[trigger] work@[i] as int) < coords@.len() by {
            }
        }
    }
    tris.push(work[0]);
    tris.push(work[1]);
    tris.push(work[2]);
    Ok(tris)
}

/// Twice the signed area of the working cycle, by the shoelace formula.
fn cycle_area2(coords: &Vec<Coord>, work: &Vec<u32>) -> (r: i128)
    requires
        coord_bounded_all(coords@),
        work@.len() <= 0xFFFF_FFFF,
        forall|i: int| 0 <= i < work@.len()
            ==> (#[trigger] work@[i] as int) < coords@.len(),
{
    let wl: usize = work.len();
    let mut acc: i128 = 0;
    let mut i: usize = 0;
    while i < wl
        invariant
            coord_bounded_all(coords@),
            i <= wl,
            wl == work@.len(),
            wl <= 0xFFFF_FFFF,
            forall|k: int| 0 <= k < work@.len()
                ==> (#[trigger] work@[k] as int) < coords@.len(),
            -((i as int) * 0x2000_0000_0000_0000) <= acc as int
                <= (i as int) * 0x2000_0000_0000_0000,
        decreases wl - i,
    {
        let nxt: usize = if i + 1 < wl { i + 1 } else { 0 };
        let p = coords[work[i] as usize];
        let q = coords[work[nxt] as usize];
        proof {
            assert(-0x1000_0000_0000_0000 <= (p.x as int) * (q.y as int)
                    <= 0x1000_0000_0000_0000) by (nonlinear_arith)
                requires
                    -0x4000_0000 <= p.x as int <= 0x4000_0000,
                    -0x4000_0000 <= q.y as int <= 0x4000_0000,
            ;
            assert(-0x1000_0000_0000_0000 <= (q.x as int) * (p.y as int)
                    <= 0x1000_0000_0000_0000) by (nonlinear_arith)
                requires
                    -0x4000_0000 <= q.x as int <= 0x4000_0000,
                    -0x4000_0000 <= p.y as int <= 0x4000_0000,
            ;
            assert((i as int + 1) * 0x2000_0000_0000_0000
                == (i as int) * 0x2000_0000_0000_0000 + 0x2000_0000_0000_0000)
                by (nonlinear_arith);
            assert(0 <= (i as int) * 0x2000_0000_0000_0000
                <= 0xFFFF_FFFFint * 0x2000_0000_0000_0000) by (nonlinear_arith)
                requires 0 <= i as int <= 0xFFFF_FFFFint;
        }
        let term: i128 = (p.x as i128) * (q.y as i128) - (q.x as i128) * (p.y as i128);
        acc = acc + term;
        i = i + 1;
    }
    acc
}

/// Tessellates one assembled polygon into a triangle list by ear clipping
/// with keyhole hole bridging.
///
/// On success the result holds consecutive index triples, one triangle
/// each, every index pointing into `path.coords`; a polygon with `n` points
/// and `h` holes yields exactly `n + 2h - 2` triangles. A polygon that
/// violates the strategy's geometric preconditions is rejected with
/// `TessellationFailure`.
pub fn tessellate(path: &PolygonPath) -> (r: Result<Vec<u32>, MapError>)
    requires
        path.wf(),
    ensures
        match r {
            Ok(t) => {
                &&& t@.len() % 3 == 0
                &&& t@.len() == 3 * (path.coords@.len() + 2 * path.hole_starts@.len() - 2)
                &&& forall|i: int| 0 <= i < t@.len()
                    ==> (#[trigger] t@[i] as int) < path.coords@.len()
            },
            Err(e) => e == MapError::TessellationFailure,
        },
        path.coords@.len() == 3 && path.hole_starts@.len() == 0 ==> r is Ok,
{
    if path.coords.len() > (u32::MAX as usize) {
        return Err(MapError::TessellationFailure);
    }
    let work = match build_work(path) {
        Ok(w) => w,
        Err(e) => {
            return Err(e);
        }
    };
    clip_ears(&path.coords, work)
}

/// Tessellates one bare ring (no holes) by ear clipping. An empty or
/// degenerate ring of fewer than three points produces zero triangles, not
/// a failure; a ring of `n >= 3` points yields exactly `n - 2` triangles on
/// success.
pub fn tessellate_ring(ring: &Vec<Coord>) -> (r: Result<Vec<u32>, MapError>)
    requires
        coord_bounded_all(ring@),
    ensures
        match r {
            Ok(t) => {
                &&& t@.len() % 3 == 0
                &&& (ring@.len() < 3 ==> t@.len() == 0)
                &&& (ring@.len() >= 3 ==> t@.len() == 3 * (ring@.len() - 2))
                &&& forall|i: int| 0 <= i < t@.len()
                    ==> (#[trigger] t@[i] as int) < ring@.len()
            },
            Err(e) => e == MapError::TessellationFailure,
        },
        ring@.len() <= 3 ==> r is Ok,
{
    let n: usize = ring.len();
    if n < 3 {
        return Ok(Vec::new());
    }
    if n > (u32::MAX as usize) {
        return Err(MapError::TessellationFailure);
    }
    let mut work: Vec<u32> = Vec::new();
    let mut i: usize = 0;
    while i < n
        invariant
            i <= n,
            n == ring@.len(),
            n <= u32::MAX,
            work@.len() == i,
            forall|k: int| 0 <= k < work@.len() ==> (#[trigger] work@[k] as int) < ring@.len(),
        decreases n - i,
    {
        work.push(i as u32);
        i = i + 1;
    }
    clip_ears(ring, work)
}

} // verus!
