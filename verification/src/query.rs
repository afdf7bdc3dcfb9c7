//! The spatial range query: selecting exactly the features whose bounding
//! rectangles intersect the viewport's bounding box.

use vstd::prelude::*;

use crate::assemble::GeomEvent;
use crate::geom::BBox;

verus! {

/// One record of the feature source: its minimum bounding rectangle and its
/// geometry event stream.
#[derive(Debug)]
pub struct Feature {
    /// Minimum bounding rectangle of the feature's geometry, in source
    /// units.
    pub bounds: BBox,
    /// The feature's geometry events, in stream order.
    pub events: Vec<GeomEvent>,
}

/// How many features of `s` intersect `bbox`.
pub open spec fn count_matching(s: Seq<Feature>, bbox: BBox) -> int
    decreases s.len(),
{
    if s.len() == 0 {
        0
    } else {
        count_matching(s.drop_last(), bbox) + if s.last().bounds.intersects_spec(bbox) {
            1int
        } else {
            0int
        }
    }
}

/// Evaluates the bounding-box query: the returned indices are exactly the
/// features whose bounding rectangle intersects `bbox` — none is missed, none
/// is added — in their source order.
pub fn query_indices(features: &Vec<Feature>, bbox: &BBox) -> (r: Vec<usize>)
    ensures
        forall|k: int| 0 <= k < r@.len()
            ==> (#[trigger] r@[k] as int) < features@.len()
                && features@[r@[k] as int].bounds.intersects_spec(*bbox),
        forall|k: int| 0 <= k < r@.len() - 1 ==> #[trigger] r@[k] < r@[k + 1],
        forall|j: int| 0 <= j < features@.len()
            && (#[trigger] features@[j]).bounds.intersects_spec(*bbox)
            ==> exists|k: int| 0 <= k < r@.len() && r@[k] == j,
        r@.len() == count_matching(features@, *bbox),
{
    let mut out: Vec<usize> = Vec::new();
    let mut i: usize = 0;
    proof {
        assert(features@.subrange(0, 0) =~= Seq::<Feature>::empty());
    }
    while i < features.len()
        invariant
            i <= features@.len(),
            forall|k: int| 0 <= k < out@.len()
                ==> (#[trigger] out@[k] as int) < i
                    && features@[out@[k] as int].bounds.intersects_spec(*bbox),
            forall|k: int| 0 <= k < out@.len() - 1 ==> #[trigger] out@[k] < out@[k + 1],
            forall|j: int| 0 <= j < i
                && (#[trigger] features@[j]).bounds.intersects_spec(*bbox)
                ==> exists|k: int| 0 <= k < out@.len() && out@[k] == j,
            out@.len() == count_matching(features@.subrange(0, i as int), *bbox),
        decreases features@.len() - i,
    {
        let ghost pre = out@;
        let hit: bool = features[i].bounds.intersects(bbox);
        if hit {
            out.push(i);
        }
        proof {
            let sub1 = features@.subrange(0, i as int + 1);
            assert(sub1.drop_last() =~= features@.subrange(0, i as int));
            assert(sub1.last() == features@[i as int]);
            if hit {
                assert forall|j: int| 0 <= j < i + 1
                    && (#[trigger] features@[j]).bounds.intersects_spec(*bbox)
                    implies exists|k: int| 0 <= k < out@.len() && out@[k] == j by {
                    if j < i {
                        let k0 = choose|k: int| 0 <= k < pre.len() && pre[k] == j;
                        assert(out@[k0] == j);
                    } else {
                        assert(out@[out@.len() - 1] == i);
                    }
                }
            }
        }
        i = i + 1;
    }
    proof {
        assert(features@.subrange(0, features@.len() as int) =~= features@);
    }
    out
}

} // verus!
