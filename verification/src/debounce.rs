//! The input debouncer: a small state machine that coalesces rapid pan and
//! zoom input into a single settled `MapEvent` once motion has paused.
//!
//! Timestamps are milliseconds from an arbitrary monotone clock that the
//! caller passes in explicitly, so tests can drive synthetic time.

use vstd::prelude::*;

use crate::geom::{div_floor, Coord};
use crate::viewport::{MapEvent, OFFSET_MAX, ZOOM_MAX, ZOOM_MIN, ZOOM_ONE};

verus! {

/// Idle time after the last pan motion before the pan is considered settled,
/// in milliseconds.
pub const PAN_SETTLE_MS: u64 = 200;

/// Idle time after the last scroll tick before the zoom is considered
/// settled, in milliseconds.
pub const ZOOM_SETTLE_MS: u64 = 150;

/// Camera distance that maps to a zoom factor of one.
pub const DIST_BASE: i64 = 1000;

/// Smallest tracked camera distance.
pub const DIST_MIN: i64 = 1;

/// Largest tracked camera distance.
pub const DIST_MAX: i64 = 1_000_000;

/// Largest accepted magnitude of one pan-motion or scroll delta.
pub const INPUT_DELTA_MAX: i64 = 0x10_0000;

/// `v` clamped into `[lo, hi]`.
pub open spec fn clamp_spec(v: int, lo: int, hi: int) -> int {
    if v < lo {
        lo
    } else if v > hi {
        hi
    } else {
        v
    }
}

/// Clamps `v` into `[lo, hi]`.
pub fn clamp(v: i64, lo: i64, hi: i64) -> (r: i64)
    requires
        lo <= hi,
    ensures
        r == clamp_spec(v as int, lo as int, hi as int),
        lo <= r <= hi,
{
    if v < lo {
        lo
    } else if v > hi {
        hi
    } else {
        v
    }
}

/// The zoom factor recomputed from the tracked camera distance, in
/// `ZOOM_ONE` fixed point and clamped into the accepted zoom range.
///
/// The chosen response curve is `1 + 20 * (dist - DIST_BASE) / dist`: at the
/// base distance the factor is one, and pulling the camera away grows the
/// factor towards twenty-one while pushing it in shrinks the factor towards
/// zero (where the clamp takes over).
pub open spec fn zoom_of_distance_spec(dist: int) -> int {
    clamp_spec(
        ZOOM_ONE + (20 * ZOOM_ONE * (dist - DIST_BASE)) / dist,
        ZOOM_MIN as int,
        ZOOM_MAX as int,
    )
}

/// Computes `zoom_of_distance_spec` on a tracked distance.
pub fn zoom_of_distance(dist: i64) -> (z: i64)
    requires
        DIST_MIN <= dist <= DIST_MAX,
    ensures
        z == zoom_of_distance_spec(dist as int),
        ZOOM_MIN <= z <= ZOOM_MAX,
{
    let num: i64 = 20 * ZOOM_ONE * (dist - DIST_BASE);
    let q: i64 = div_floor(num, dist);
    proof {
        vstd::arithmetic::div_mod::lemma_div_is_ordered(
            -(20 * ZOOM_ONE * DIST_BASE) as int, num as int, dist as int);
        vstd::arithmetic::div_mod::lemma_div_is_ordered(
            num as int, 20 * ZOOM_ONE * DIST_MAX, dist as int);
    }
    clamp(ZOOM_ONE + q, ZOOM_MIN, ZOOM_MAX)
}

/// The debouncing state machine.
///
/// It is idle when neither timer runs, panning while `last_pan` holds the
/// timestamp of the latest pan motion, and zooming while `last_zoom` holds
/// the timestamp of the latest scroll tick. The two timers run
/// independently, so a pan and a zoom can settle in the same evaluation
/// tick; `evaluate` then coalesces both signals into one `MapEvent`.
pub struct Debouncer {
    /// Timestamp of the latest pan motion, while panning.
    pub last_pan: Option<u64>,
    /// Timestamp of the latest scroll tick, while zooming.
    pub last_zoom: Option<u64>,
    /// A button release arrived while panning; the pan settles at the next
    /// evaluation without waiting for the timer.
    pub release_pending: bool,
    /// Accumulated pan offset in pixels, the focus point a settled pan
    /// reports.
    pub focus: Coord,
    /// Tracked camera distance, the input of the zoom recomputation.
    pub cam_dist: i64,
}

impl Debouncer {
    /// Well-formed: the focus and the camera distance stay in their tracked
    /// ranges, and a pending release implies an active pan.
    pub open spec fn wf(self) -> bool {
        &&& -OFFSET_MAX <= self.focus.x <= OFFSET_MAX
        &&& -OFFSET_MAX <= self.focus.y <= OFFSET_MAX
        &&& DIST_MIN <= self.cam_dist <= DIST_MAX
        &&& self.release_pending ==> self.last_pan is Some
    }

    /// Neither a pan nor a zoom is in progress.
    pub open spec fn is_idle(self) -> bool {
        self.last_pan is None && self.last_zoom is None
    }

    /// A pan is due to settle at time `now`: either the button was released,
    /// or more than the pan settle threshold has passed since the latest
    /// motion.
    pub open spec fn pan_due(self, now: u64) -> bool {
        match self.last_pan {
            Some(t) => self.release_pending || now - t > PAN_SETTLE_MS,
            None => false,
        }
    }

    /// A zoom is due to settle at time `now`: more than the zoom settle
    /// threshold has passed since the latest scroll tick.
    pub open spec fn zoom_due(self, now: u64) -> bool {
        match self.last_zoom {
            Some(t) => now - t > ZOOM_SETTLE_MS,
            None => false,
        }
    }

    /// All stored timestamps lie at or before `now`; the clock is monotone.
    pub open spec fn clock_valid(self, now: u64) -> bool {
        &&& match self.last_pan {
            Some(t) => t <= now,
            None => true,
        }
        &&& match self.last_zoom {
            Some(t) => t <= now,
            None => true,
        }
    }

    /// A fresh, idle machine with a centered focus and the base camera
    /// distance.
    pub fn new() -> (d: Debouncer)
        ensures
            d.wf(),
            d.is_idle(),
            !d.release_pending,
            d.focus == (Coord { x: 0i64, y: 0i64 }),
            d.cam_dist == DIST_BASE,
    {
        Debouncer {
            last_pan: None,
            last_zoom: None,
            release_pending: false,
            focus: Coord { x: 0, y: 0 },
            cam_dist: DIST_BASE,
        }
    }

    /// Records one pan motion: the delta is added to the focus (clamped to
    /// the representable offset window) and the pan timestamp is refreshed;
    /// an already running pan stays running.
    pub fn pan_motion(&mut self, now: u64, dx: i64, dy: i64)
        requires
            old(self).wf(),
            -INPUT_DELTA_MAX <= dx <= INPUT_DELTA_MAX,
            -INPUT_DELTA_MAX <= dy <= INPUT_DELTA_MAX,
        ensures
            final(self).wf(),
            final(self).last_pan == Some(now),
            final(self).focus.x == clamp_spec(
                old(self).focus.x + dx, -OFFSET_MAX as int, OFFSET_MAX as int),
            final(self).focus.y == clamp_spec(
                old(self).focus.y + dy, -OFFSET_MAX as int, OFFSET_MAX as int),
            final(self).last_zoom == old(self).last_zoom,
            final(self).cam_dist == old(self).cam_dist,
            final(self).release_pending == old(self).release_pending,
    {
        self.focus = Coord {
            x: clamp(self.focus.x + dx, -OFFSET_MAX, OFFSET_MAX),
            y: clamp(self.focus.y + dy, -OFFSET_MAX, OFFSET_MAX),
        };
        self.last_pan = Some(now);
    }

    /// Records one scroll tick: the camera distance moves by the negated
    /// delta (clamped to its tracked range) and the zoom timestamp is
    /// refreshed.
    pub fn scroll(&mut self, now: u64, delta: i64)
        requires
            old(self).wf(),
            -INPUT_DELTA_MAX <= delta <= INPUT_DELTA_MAX,
        ensures
            final(self).wf(),
            final(self).last_zoom == Some(now),
            final(self).cam_dist == clamp_spec(
                old(self).cam_dist - delta, DIST_MIN as int, DIST_MAX as int),
            final(self).last_pan == old(self).last_pan,
            final(self).focus == old(self).focus,
            final(self).release_pending == old(self).release_pending,
    {
        self.cam_dist = clamp(self.cam_dist - delta, DIST_MIN, DIST_MAX);
        self.last_zoom = Some(now);
    }

    /// Records a button release: while a pan is running it marks the pan to
    /// settle at the next evaluation; otherwise it changes nothing.
    pub fn release(&mut self)
        requires
            old(self).wf(),
        ensures
            final(self).wf(),
            final(self).release_pending
                == (old(self).release_pending || old(self).last_pan is Some),
            final(self).last_pan == old(self).last_pan,
            final(self).last_zoom == old(self).last_zoom,
            final(self).focus == old(self).focus,
            final(self).cam_dist == old(self).cam_dist,
    {
        if self.last_pan.is_some() {
            self.release_pending = true;
        }
    }

    /// One evaluation tick at time `now`: emits a settled `MapEvent` when a
    /// pan, a zoom, or both are due, carrying the current focus and/or the
    /// recomputed zoom factor, and returns the machine to idle on the settled
    /// axes. Emits nothing while no axis is due.
    pub fn evaluate(&mut self, now: u64) -> (r: Option<MapEvent>)
        requires
            old(self).wf(),
            old(self).clock_valid(now),
        ensures
            final(self).wf(),
            (r is Some) == (old(self).pan_due(now) || old(self).zoom_due(now)),
            match r {
                Some(ev) => {
                    &&& ev.wf()
                    &&& ev.offset == (if old(self).pan_due(now) {
                        Some(old(self).focus)
                    } else {
                        None::<Coord>
                    })
                    &&& match ev.zoom {
                        Some(z) => old(self).zoom_due(now)
                            && z == zoom_of_distance_spec(old(self).cam_dist as int),
                        None => !old(self).zoom_due(now),
                    }
                },
                None => !old(self).pan_due(now) && !old(self).zoom_due(now),
            },
            final(self).last_pan == (if old(self).pan_due(now) {
                None::<u64>
            } else {
                old(self).last_pan
            }),
            final(self).release_pending
                == (if old(self).pan_due(now) { false } else { old(self).release_pending }),
            final(self).last_zoom == (if old(self).zoom_due(now) {
                None::<u64>
            } else {
                old(self).last_zoom
            }),
            final(self).focus == old(self).focus,
            final(self).cam_dist == old(self).cam_dist,
    {
        let mut offset: Option<Coord> = None;
        let mut zoom: Option<i64> = None;
        let pan_is_due: bool = match self.last_pan {
            Some(t) => self.release_pending || now - t > PAN_SETTLE_MS,
            None => false,
        };
        if pan_is_due {
            offset = Some(self.focus);
            self.last_pan = None;
            self.release_pending = false;
        }
        let zoom_is_due: bool = match self.last_zoom {
            Some(t) => now - t > ZOOM_SETTLE_MS,
            None => false,
        };
        if zoom_is_due {
            zoom = Some(zoom_of_distance(self.cam_dist));
            self.last_zoom = None;
        }
        if offset.is_some() || zoom.is_some() {
            Some(MapEvent { offset, zoom })
        } else {
            None
        }
    }
}

} // verus!
