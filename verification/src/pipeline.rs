//! The reload pipeline: from a settled viewport event to a combined mesh.
//!
//! One reload runs the whole chain — apply the event to the viewport,
//! derive the bounding box, query the features, assemble and tessellate each
//! polygon, and accumulate everything into one mesh. Per-feature and
//! per-polygon failures skip only the affected feature or polygon and are
//! counted in the reload's statistics, never silently swallowed; the rest of
//! the query continues.

use vstd::prelude::*;

use crate::assemble::{assemble_feature, stream_ok};
use crate::earclip::tessellate;
use crate::geom::{BBox, Coord};
use crate::mesh::{Mesh, RenderMesh};
use crate::query::{count_matching, Feature};
use crate::viewport::{apply_map_event, effective_resolution_spec, MapEvent, Viewport,
    EFF_RES_MAX, PROJ_CENTER_MAX, WINDOW_MAX};

verus! {

/// Counts of one reload cycle: the pipeline's diagnostic signal.
#[derive(Clone, Copy, PartialEq, Eq, Structural, Debug)]
pub struct ReloadStats {
    /// Features in the source.
    pub features_total: usize,
    /// Features whose bounding rectangle intersects the query box.
    pub features_matched: usize,
    /// Matched features fully assembled (their polygons may still have been
    /// skipped individually).
    pub features_drawn: usize,
    /// Matched features skipped because their event stream was malformed.
    pub features_skipped: usize,
    /// Polygons skipped because tessellation rejected them or the combined
    /// mesh would outgrow its index range; saturates at the counter maximum.
    pub polygons_skipped: usize,
}

/// How many features of `s` intersect `bbox` and carry a well-formed event
/// stream under the given projection: exactly these are drawn.
pub open spec fn count_drawable(s: Seq<Feature>, bbox: BBox, center: Coord, resolution: i64)
    -> int
    decreases s.len(),
{
    if s.len() == 0 {
        0
    } else {
        count_drawable(s.drop_last(), bbox, center, resolution)
            + if s.last().bounds.intersects_spec(bbox)
                && stream_ok(s.last().events@, center, resolution) {
            1int
        } else {
            0int
        }
    }
}

/// Builds the combined mesh for one bounding box over a feature set.
///
/// Exactly the features whose rectangle intersects `bbox` are processed, in
/// source order; of those, exactly the ones with a well-formed event stream
/// are drawn and the rest are skipped whole. A polygon the tessellator
/// rejects is skipped alone; every skip is counted.
pub fn build_mesh(features: &Vec<Feature>, bbox: &BBox, center: Coord, resolution: i64)
    -> (r: (Mesh, ReloadStats))
    requires
        -PROJ_CENTER_MAX <= center.x <= PROJ_CENTER_MAX,
        -PROJ_CENTER_MAX <= center.y <= PROJ_CENTER_MAX,
        1 <= resolution <= EFF_RES_MAX,
    ensures
        r.0.wf(),
        r.1.features_total == features@.len(),
        r.1.features_matched == count_matching(features@, *bbox),
        r.1.features_drawn == count_drawable(features@, *bbox, center, resolution),
        r.1.features_drawn + r.1.features_skipped == r.1.features_matched,
        count_matching(features@, *bbox) == 0 ==> r.0.vertices@.len() == 0
            && r.0.indices@.len() == 0,
{
    let mut mesh = Mesh::new();
    let mut matched: usize = 0;
    let mut drawn: usize = 0;
    let mut skipped: usize = 0;
    let mut poly_skipped: usize = 0;
    let mut i: usize = 0;
    proof {
        assert(features@.subrange(0, 0) =~= Seq::<Feature>::empty());
    }
    while i < features.len()
        invariant
            mesh.wf(),
            i <= features@.len(),
            -PROJ_CENTER_MAX <= center.x <= PROJ_CENTER_MAX,
            -PROJ_CENTER_MAX <= center.y <= PROJ_CENTER_MAX,
            1 <= resolution <= EFF_RES_MAX,
            matched <= i,
            matched == count_matching(features@.subrange(0, i as int), *bbox),
            drawn == count_drawable(features@.subrange(0, i as int), *bbox, center,
                resolution),
            drawn + skipped == matched,
            matched == 0 ==> mesh.vertices@.len() == 0 && mesh.indices@.len() == 0,
        decreases features@.len() - i,
    {
        let ghost pre = features@.subrange(0, i as int);
        let feature = &features[i];
        let hit: bool = feature.bounds.intersects(bbox);
        if hit {
            matched = matched + 1;
            match assemble_feature(&feature.events, center, resolution) {
                Ok(paths) => {
                    let mut pi: usize = 0;
                    while pi < paths.len()
                        invariant
                            mesh.wf(),
                            pi <= paths@.len(),
                            forall|k: int| 0 <= k < paths@.len()
                                ==> (#[trigger] paths@[k]).wf(),
                        decreases paths@.len() - pi,
                    {
                        let path = &paths[pi];
                        match tessellate(path) {
                            Ok(tris) => {
                                if path.coords.len()
                                    <= (u32::MAX as usize) - mesh.vertices.len() {
                                    mesh.accumulate(&path.coords, &tris);
                                } else {
                                    if poly_skipped < usize::MAX {
                                        poly_skipped = poly_skipped + 1;
                                    }
                                }
                            }
                            Err(_) => {
                                if poly_skipped < usize::MAX {
                                    poly_skipped = poly_skipped + 1;
                                }
                            }
                        }
                        pi = pi + 1;
                    }
                    drawn = drawn + 1;
                }
                Err(_) => {
                    skipped = skipped + 1;
                }
            }
        }
        proof {
            assert(features@.subrange(0, i as int + 1).drop_last() =~= pre);
            assert(features@.subrange(0, i as int + 1).last() == features@[i as int]);
        }
        i = i + 1;
    }
    proof {
        assert(features@.subrange(0, features@.len() as int) =~= features@);
    }
    let stats = ReloadStats {
        features_total: features.len(),
        features_matched: matched,
        features_drawn: drawn,
        features_skipped: skipped,
        polygons_skipped: poly_skipped,
    };
    (mesh, stats)
}

/// Everything one reload hands to the render collaborator: the finished
/// mesh, the projection it was built with, the queried bounding box, and the
/// reload's statistics.
pub struct ReloadOutput {
    /// The combined mesh with its placeholder normals and texture
    /// coordinates.
    pub mesh: RenderMesh,
    /// Projected center of the viewport, in source units.
    pub center: Coord,
    /// Effective resolution of the reload, in source units per pixel.
    pub resolution: i64,
    /// Bounding box of the visible area, in source units.
    pub bbox: BBox,
    /// The reload's statistics.
    pub stats: ReloadStats,
}

/// Runs one whole reload: applies the settled event to the viewport,
/// derives projection and bounding box, and builds the combined mesh from
/// the features that intersect it.
///
/// The bounding box follows the projection formulas exactly: the effective
/// resolution is the viewport's resolution scaled by its zoom, the projected
/// center is the center displaced by the pan offset times that resolution,
/// and the box spans half a window in each direction.
pub fn reload(vp: &mut Viewport, window_w: u32, window_h: u32, ev: &MapEvent,
    features: &Vec<Feature>) -> (r: ReloadOutput)
    requires
        old(vp).wf(),
        ev.wf(),
        1 <= window_w <= WINDOW_MAX,
        1 <= window_h <= WINDOW_MAX,
    ensures
        final(vp).wf(),
        final(vp).center == old(vp).center,
        final(vp).resolution == old(vp).resolution,
        final(vp).offset == (match ev.offset {
            Some(o) => o,
            None => old(vp).offset,
        }),
        final(vp).zoom == (match ev.zoom {
            Some(z) => z,
            None => old(vp).zoom,
        }),
        r.resolution == effective_resolution_spec(
            final(vp).resolution as int, final(vp).zoom as int),
        r.center.x == final(vp).center.x + final(vp).offset.x * r.resolution,
        r.center.y == final(vp).center.y + final(vp).offset.y * r.resolution,
        r.bbox.min_x == r.center.x - (window_w * r.resolution) / 2,
        r.bbox.max_x == r.center.x + (window_w * r.resolution) / 2,
        r.bbox.min_y == r.center.y - (window_h * r.resolution) / 2,
        r.bbox.max_y == r.center.y + (window_h * r.resolution) / 2,
        r.bbox.wf(),
        r.mesh.indices@.len() % 3 == 0,
        forall|i: int| 0 <= i < r.mesh.indices@.len()
            ==> (r.mesh.indices@[i] as int) < r.mesh.positions@.len(),
        r.mesh.normals@.len() == r.mesh.positions@.len(),
        r.mesh.uvs@.len() == r.mesh.positions@.len(),
        r.stats.features_total == features@.len(),
        r.stats.features_matched == count_matching(features@, r.bbox),
        r.stats.features_drawn + r.stats.features_skipped == r.stats.features_matched,
        r.stats.features_drawn == count_drawable(features@, r.bbox, r.center, r.resolution),
        count_matching(features@, r.bbox) == 0 ==> r.mesh.positions@.len() == 0,
{
    let (center, eff, bbox) = apply_map_event(vp, window_w, window_h, ev);
    let (mesh, stats) = build_mesh(features, &bbox, center, eff);
    let rendered = mesh.finalize();
    ReloadOutput { mesh: rendered, center, resolution: eff, bbox, stats }
}

} // verus!
