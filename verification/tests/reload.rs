use mapmesh::assemble::GeomEvent;
use mapmesh::geom::{BBox, Coord};
use mapmesh::pipeline::{build_mesh, reload};
use mapmesh::query::{query_indices, Feature};
use mapmesh::viewport::{MapEvent, Viewport};

fn zurich_viewport() -> Viewport {
    Viewport {
        center: Coord { x: 853_000_000, y: 4_737_000_000 },
        offset: Coord { x: 0, y: 0 },
        resolution: 3000,
        zoom: 1000,
    }
}

fn triangle_feature() -> Feature {
    Feature {
        bounds: BBox {
            min_x: 853_000_000,
            min_y: 4_737_000_000,
            max_x: 853_100_000,
            max_y: 4_737_100_000,
        },
        events: vec![
            GeomEvent::RingBegin { exterior: true, expected: 3, idx: 0 },
            GeomEvent::Coordinate { x: 853_000_000, y: 4_737_000_000, idx: 0 },
            GeomEvent::Coordinate { x: 853_100_000, y: 4_737_050_000, idx: 1 },
            GeomEvent::Coordinate { x: 853_050_000, y: 4_737_100_000, idx: 2 },
            GeomEvent::PolygonEnd,
        ],
    }
}

fn two_point_feature() -> Feature {
    Feature {
        bounds: BBox {
            min_x: 853_000_000,
            min_y: 4_737_000_000,
            max_x: 853_100_000,
            max_y: 4_737_100_000,
        },
        events: vec![
            GeomEvent::RingBegin { exterior: true, expected: 2, idx: 0 },
            GeomEvent::Coordinate { x: 853_000_000, y: 4_737_000_000, idx: 0 },
            GeomEvent::Coordinate { x: 853_100_000, y: 4_737_050_000, idx: 1 },
            GeomEvent::PolygonEnd,
        ],
    }
}

fn far_away_feature() -> Feature {
    Feature {
        bounds: BBox {
            min_x: 900_000_000,
            min_y: 4_737_000_000,
            max_x: 900_100_000,
            max_y: 4_737_100_000,
        },
        events: Vec::new(),
    }
}

#[test]
fn query_selects_exactly_the_intersecting_features() {
    let bbox = BBox { min_x: 0, min_y: 0, max_x: 100, max_y: 100 };
    let rect = |min_x, min_y, max_x, max_y| Feature {
        bounds: BBox { min_x, min_y, max_x, max_y },
        events: Vec::new(),
    };
    let features = vec![
        rect(10, 10, 20, 20),     // inside
        rect(150, 150, 160, 160), // outside
        rect(100, 100, 120, 120), // touching the corner: intersecting
        rect(-50, -50, 0, 0),     // touching from the other side
        rect(-50, 101, 200, 300), // outside on the y axis alone
    ];
    let idxs = query_indices(&features, &bbox);
    assert_eq!(idxs, vec![0, 2, 3]);
}

#[test]
fn end_to_end_one_triangle() {
    // viewport center (8.53, 47.37), resolution 0.00003, zoom 1.0,
    // window 978x733, one triangular feature fully inside the box
    let mut vp = zurich_viewport();
    let ev = MapEvent { offset: Some(Coord { x: 0, y: 0 }), zoom: Some(1000) };
    let features = vec![triangle_feature()];
    let out = reload(&mut vp, 978, 733, &ev, &features);
    assert_eq!(
        out.bbox,
        BBox {
            min_x: 851_533_000,
            min_y: 4_735_900_500,
            max_x: 854_467_000,
            max_y: 4_738_099_500,
        }
    );
    assert_eq!(out.resolution, 3000);
    assert_eq!(out.center, Coord { x: 853_000_000, y: 4_737_000_000 });
    // exactly 3 vertices and one triangle, all indices in [0, 3)
    assert_eq!(out.mesh.positions.len(), 3);
    assert_eq!(out.mesh.indices.len(), 3);
    for idx in &out.mesh.indices {
        assert!((*idx as usize) < 3);
    }
    assert_eq!(out.mesh.normals.len(), 3);
    assert_eq!(out.mesh.uvs.len(), 3);
    assert_eq!(out.stats.features_total, 1);
    assert_eq!(out.stats.features_matched, 1);
    assert_eq!(out.stats.features_drawn, 1);
    assert_eq!(out.stats.features_skipped, 0);
    assert_eq!(out.stats.polygons_skipped, 0);
}

#[test]
fn malformed_feature_is_skipped_and_the_reload_continues() {
    // a 2-point exterior ring is invalid: that feature is skipped while the
    // valid one in the same query is still drawn
    let mut vp = zurich_viewport();
    let ev = MapEvent { offset: None, zoom: None };
    let features = vec![two_point_feature(), triangle_feature()];
    let out = reload(&mut vp, 978, 733, &ev, &features);
    assert_eq!(out.stats.features_matched, 2);
    assert_eq!(out.stats.features_drawn, 1);
    assert_eq!(out.stats.features_skipped, 1);
    assert_eq!(out.mesh.positions.len(), 3);
    assert_eq!(out.mesh.indices.len(), 3);
}

#[test]
fn feature_outside_the_box_is_not_processed() {
    let mut vp = zurich_viewport();
    let ev = MapEvent { offset: None, zoom: None };
    let features = vec![far_away_feature(), triangle_feature()];
    let out = reload(&mut vp, 978, 733, &ev, &features);
    assert_eq!(out.stats.features_total, 2);
    assert_eq!(out.stats.features_matched, 1);
    assert_eq!(out.stats.features_drawn, 1);
    assert_eq!(out.mesh.positions.len(), 3);
}

#[test]
fn degenerate_polygon_is_skipped_alone() {
    // four collinear points pass assembly (three or more points) but cannot
    // be tessellated: the polygon is skipped, not the reload
    let collinear = Feature {
        bounds: BBox {
            min_x: 853_000_000,
            min_y: 4_737_000_000,
            max_x: 853_100_000,
            max_y: 4_737_100_000,
        },
        events: vec![
            GeomEvent::RingBegin { exterior: true, expected: 4, idx: 0 },
            GeomEvent::Coordinate { x: 853_000_000, y: 4_737_000_000, idx: 0 },
            GeomEvent::Coordinate { x: 853_030_000, y: 4_737_030_000, idx: 1 },
            GeomEvent::Coordinate { x: 853_060_000, y: 4_737_060_000, idx: 2 },
            GeomEvent::Coordinate { x: 853_090_000, y: 4_737_090_000, idx: 3 },
            GeomEvent::PolygonEnd,
        ],
    };
    let vp = zurich_viewport();
    let bbox = BBox {
        min_x: 851_533_000,
        min_y: 4_735_900_500,
        max_x: 854_467_000,
        max_y: 4_738_099_500,
    };
    let (mesh, stats) = build_mesh(
        &vec![collinear, triangle_feature()], &bbox, vp.center, 3000);
    assert_eq!(stats.features_drawn, 2);
    assert_eq!(stats.features_skipped, 0);
    assert_eq!(stats.polygons_skipped, 1);
    assert_eq!(mesh.vertices.len(), 3);
    assert_eq!(mesh.indices.len(), 3);
}

#[test]
fn empty_feature_set_yields_an_empty_mesh() {
    let mut vp = zurich_viewport();
    let ev = MapEvent { offset: None, zoom: None };
    let features: Vec<Feature> = Vec::new();
    let out = reload(&mut vp, 978, 733, &ev, &features);
    assert_eq!(out.stats.features_total, 0);
    assert_eq!(out.stats.features_matched, 0);
    assert_eq!(out.mesh.positions.len(), 0);
    assert_eq!(out.mesh.indices.len(), 0);
}
