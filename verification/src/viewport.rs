//! Viewport state and the projection step: applying a settled pan/zoom event
//! to the viewport and deriving the effective resolution, the projected
//! center and the bounding box that drives the spatial query.
//!
//! All quantities are fixed-point `i64` values. The zoom factor is scaled by
//! `ZOOM_ONE` (so `ZOOM_ONE` means a factor of one); resolutions are source
//! units per pixel; pan offsets are whole pixels.

use vstd::prelude::*;

use crate::geom::{div_floor, BBox, Coord, DIV_ARG_MAX};

verus! {

/// Fixed-point scale of the zoom factor: a stored zoom of `ZOOM_ONE` is a
/// multiplicative factor of one.
pub const ZOOM_ONE: i64 = 1000;

/// Smallest accepted zoom value (0.001 of `ZOOM_ONE`), keeping the projection
/// away from degenerate or inverted configurations.
pub const ZOOM_MIN: i64 = 1;

/// Largest accepted zoom value (100 times `ZOOM_ONE`).
pub const ZOOM_MAX: i64 = 100_000;

/// Largest accepted base resolution, in source units per pixel.
pub const RES_MAX: i64 = 0x8000_0000;

/// Largest effective resolution: `RES_MAX * ZOOM_MAX / ZOOM_ONE`.
pub const EFF_RES_MAX: i64 = 0x8000_0000 * 100;

/// Largest accepted pan offset magnitude, in pixels.
pub const OFFSET_MAX: i64 = 0x10_0000;

/// Largest accepted viewport center magnitude, in source units.
pub const CENTER_MAX: i64 = 0x100_0000_0000_0000;

/// Bound on the magnitude of a projected center coordinate; it covers
/// `CENTER_MAX + OFFSET_MAX * EFF_RES_MAX`.
pub const PROJ_CENTER_MAX: i64 = 0x800_0000_0000_0000;

/// Largest accepted window dimension, in pixels.
pub const WINDOW_MAX: u32 = 0x1_0000;

/// The viewport the user pans and zooms.
#[derive(Clone, Copy, PartialEq, Eq, Structural, Debug)]
pub struct Viewport {
    /// Center of the view in source units.
    pub center: Coord,
    /// Accumulated pan offset in pixels; it is converted to source units by
    /// multiplying with the effective resolution, so a pixel-sized pan maps
    /// to the same screen distance at every zoom level.
    pub offset: Coord,
    /// Source units per pixel at a zoom factor of one.
    pub resolution: i64,
    /// Zoom factor scaled by `ZOOM_ONE`.
    pub zoom: i64,
}

impl Viewport {
    /// Well-formed: every field is inside the fixed-point range the
    /// projection arithmetic is proved for.
    pub open spec fn wf(self) -> bool {
        &&& -CENTER_MAX <= self.center.x <= CENTER_MAX
        &&& -CENTER_MAX <= self.center.y <= CENTER_MAX
        &&& -OFFSET_MAX <= self.offset.x <= OFFSET_MAX
        &&& -OFFSET_MAX <= self.offset.y <= OFFSET_MAX
        &&& 1 <= self.resolution <= RES_MAX
        &&& ZOOM_MIN <= self.zoom <= ZOOM_MAX
    }
}

/// A settled viewport change: whichever of pan offset and zoom factor changed
/// (either or both).
#[derive(Clone, Copy, PartialEq, Eq, Debug)]
pub struct MapEvent {
    /// New pan offset in pixels, if panning settled.
    pub offset: Option<Coord>,
    /// New zoom factor scaled by `ZOOM_ONE`, if zooming settled.
    pub zoom: Option<i64>,
}

impl MapEvent {
    /// Well-formed: carried values are inside the accepted ranges.
    pub open spec fn wf(self) -> bool {
        &&& match self.offset {
            Some(o) => -OFFSET_MAX <= o.x <= OFFSET_MAX && -OFFSET_MAX <= o.y <= OFFSET_MAX,
            None => true,
        }
        &&& match self.zoom {
            Some(z) => ZOOM_MIN <= z <= ZOOM_MAX,
            None => true,
        }
    }

}

/// Effective resolution of a viewport: the base resolution scaled by the zoom
/// factor, floored at one source unit per pixel so it stays positive.
pub open spec fn effective_resolution_spec(resolution: int, zoom: int) -> int {
    let e = (resolution * zoom) / (ZOOM_ONE as int);
    if e < 1 {
        1
    } else {
        e
    }
}

/// Computes `resolution * zoom / ZOOM_ONE`, floored at one.
pub fn effective_resolution(resolution: i64, zoom: i64) -> (r: i64)
    requires
        1 <= resolution <= RES_MAX,
        ZOOM_MIN <= zoom <= ZOOM_MAX,
    ensures
        r == effective_resolution_spec(resolution as int, zoom as int),
        1 <= r <= EFF_RES_MAX,
{
    proof {
        assert(1 <= resolution as int * zoom as int <= RES_MAX as int * ZOOM_MAX as int)
            by (nonlinear_arith)
            requires
                1 <= resolution as int <= RES_MAX as int,
                1 <= zoom as int <= ZOOM_MAX as int,
        ;
    }
    let p: i64 = resolution * zoom;
    let e: i64 = div_floor(p, ZOOM_ONE);
    proof {
        vstd::arithmetic::div_mod::lemma_div_is_ordered(
            p as int, RES_MAX as int * ZOOM_MAX as int, ZOOM_ONE as int);
        vstd::arithmetic::div_mod::lemma_div_is_ordered(0, p as int, ZOOM_ONE as int);
    }
    if e < 1 {
        1
    } else {
        e
    }
}

/// Projection of one axis value into pixel space: `(v - c) / res`, with the
/// division rounding towards negative infinity. The y axis keeps the source
/// convention (values grow upward); a renderer that wants screen-down y
/// negates it at the boundary.
pub open spec fn project_axis_spec(v: int, c: int, res: int) -> int {
    (v - c) / res
}

/// Inverse of the projection: `p * res + c`.
pub open spec fn unproject_axis_spec(p: int, c: int, res: int) -> int {
    p * res + c
}

/// Projects one axis value into pixel space.
pub fn project_axis(v: i64, c: i64, res: i64) -> (p: i64)
    requires
        1 <= res,
        -DIV_ARG_MAX <= v - c <= DIV_ARG_MAX,
    ensures
        p == project_axis_spec(v as int, c as int, res as int),
{
    div_floor(v - c, res)
}

/// Law: projection with a positive resolution is invertible up to one
/// resolution unit, and exactly invertible when the resolution divides the
/// distance to the center. Together with the affine formulas
/// `project_axis_spec` and `unproject_axis_spec` this pins down the
/// round-trip behaviour of the projection for every coordinate.
pub proof fn lemma_projection_round_trip(v: int, c: int, res: int)
    requires
        res >= 1,
    ensures
        v - res < unproject_axis_spec(project_axis_spec(v, c, res), c, res) <= v,
        (v - c) % res == 0 ==> unproject_axis_spec(project_axis_spec(v, c, res), c, res) == v,
{
    let q = (v - c) / res;
    let r = (v - c) % res;
    vstd::arithmetic::div_mod::lemma_fundamental_div_mod(v - c, res);
    assert(v - c == res * q + r);
    assert(q * res == res * q) by (nonlinear_arith);
}

/// Law: the other direction of the round trip is exact for every pixel
/// value: unprojecting a pixel coordinate and projecting it again returns
/// the same pixel coordinate.
pub proof fn lemma_unproject_project(p: int, c: int, res: int)
    requires
        res >= 1,
    ensures
        project_axis_spec(unproject_axis_spec(p, c, res), c, res) == p,
{
    assert(p * res + c - c == p * res);
    vstd::arithmetic::div_mod::lemma_fundamental_div_mod_converse(p * res, res, p, 0);
}

/// Applies a settled map event to the viewport, then derives the projected
/// center, the effective resolution and the bounding box of the visible
/// area, exactly as the spatial query expects them.
///
/// The bounding box spans the projected center plus/minus half the window
/// size times the effective resolution on each axis (window halves rounding
/// towards negative infinity in fixed point). A degenerate window must be
/// rejected by the caller, as the preconditions state.
pub fn apply_map_event(vp: &mut Viewport, window_w: u32, window_h: u32, ev: &MapEvent)
    -> (r: (Coord, i64, BBox))
    requires
        old(vp).wf(),
        ev.wf(),
        1 <= window_w <= WINDOW_MAX,
        1 <= window_h <= WINDOW_MAX,
    ensures
        final(vp).wf(),
        final(vp).center == old(vp).center,
        final(vp).resolution == old(vp).resolution,
        final(vp).offset == (match ev.offset {
            Some(o) => o,
            None => old(vp).offset,
        }),
        final(vp).zoom == (match ev.zoom {
            Some(z) => z,
            None => old(vp).zoom,
        }),
        r.1 == effective_resolution_spec(
            final(vp).resolution as int, final(vp).zoom as int),
        1 <= r.1 <= EFF_RES_MAX,
        r.0.x == final(vp).center.x + final(vp).offset.x * r.1,
        r.0.y == final(vp).center.y + final(vp).offset.y * r.1,
        -PROJ_CENTER_MAX <= r.0.x <= PROJ_CENTER_MAX,
        -PROJ_CENTER_MAX <= r.0.y <= PROJ_CENTER_MAX,
        r.2.min_x == r.0.x - (window_w * r.1) / 2,
        r.2.max_x == r.0.x + (window_w * r.1) / 2,
        r.2.min_y == r.0.y - (window_h * r.1) / 2,
        r.2.max_y == r.0.y + (window_h * r.1) / 2,
        r.2.wf(),
{
    match ev.offset {
        Some(o) => {
            vp.offset = o;
        }
        None => {}
    }
    match ev.zoom {
        Some(z) => {
            vp.zoom = z;
        }
        None => {}
    }
    let eff: i64 = effective_resolution(vp.resolution, vp.zoom);
    proof {
        assert(-(OFFSET_MAX as int * EFF_RES_MAX as int) <= vp.offset.x as int * eff as int
                <= OFFSET_MAX as int * EFF_RES_MAX as int) by (nonlinear_arith)
            requires
                -(OFFSET_MAX as int) <= vp.offset.x as int <= OFFSET_MAX as int,
                0 <= eff as int <= EFF_RES_MAX as int,
        ;
        assert(-(OFFSET_MAX as int * EFF_RES_MAX as int) <= vp.offset.y as int * eff as int
                <= OFFSET_MAX as int * EFF_RES_MAX as int) by (nonlinear_arith)
            requires
                -(OFFSET_MAX as int) <= vp.offset.y as int <= OFFSET_MAX as int,
                0 <= eff as int <= EFF_RES_MAX as int,
        ;
    }
    let pcx: i64 = vp.center.x + vp.offset.x * eff;
    let pcy: i64 = vp.center.y + vp.offset.y * eff;
    proof {
        assert(0 <= window_w as int * eff as int <= WINDOW_MAX as int * EFF_RES_MAX as int)
            by (nonlinear_arith)
            requires
                0 <= window_w as int <= WINDOW_MAX as int,
                0 <= eff as int <= EFF_RES_MAX as int,
        ;
        assert(0 <= window_h as int * eff as int <= WINDOW_MAX as int * EFF_RES_MAX as int)
            by (nonlinear_arith)
            requires
                0 <= window_h as int <= WINDOW_MAX as int,
                0 <= eff as int <= EFF_RES_MAX as int,
        ;
    }
    let half_w: i64 = div_floor((window_w as i64) * eff, 2);
    let half_h: i64 = div_floor((window_h as i64) * eff, 2);
    proof {
        vstd::arithmetic::div_mod::lemma_div_is_ordered(
            0, (window_w as int) * (eff as int), 2);
        vstd::arithmetic::div_mod::lemma_div_is_ordered(
            0, (window_h as int) * (eff as int), 2);
        vstd::arithmetic::div_mod::lemma_div_is_ordered(
            (window_w as int) * (eff as int), WINDOW_MAX as int * EFF_RES_MAX as int, 2);
        vstd::arithmetic::div_mod::lemma_div_is_ordered(
            (window_h as int) * (eff as int), WINDOW_MAX as int * EFF_RES_MAX as int, 2);
    }
    let bbox = BBox {
        min_x: pcx - half_w,
        min_y: pcy - half_h,
        max_x: pcx + half_w,
        max_y: pcy + half_h,
    };
    (Coord { x: pcx, y: pcy }, eff, bbox)
}

} // verus!
