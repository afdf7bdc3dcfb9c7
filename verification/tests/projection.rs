use mapmesh::geom::{div_floor, BBox, Coord};
use mapmesh::viewport::{apply_map_event, effective_resolution, project_axis, MapEvent,
    Viewport};

fn zurich_viewport() -> Viewport {
    // center (8.53, 47.37) degrees and 0.00003 degrees per pixel, both in
    // units of 1e-8 degree; zoom factor 1.0 in thousandths.
    Viewport {
        center: Coord { x: 853_000_000, y: 4_737_000_000 },
        offset: Coord { x: 0, y: 0 },
        resolution: 3000,
        zoom: 1000,
    }
}

#[test]
fn div_floor_rounds_towards_negative_infinity() {
    assert_eq!(div_floor(7, 2), 3);
    assert_eq!(div_floor(6, 2), 3);
    assert_eq!(div_floor(-7, 2), -4);
    assert_eq!(div_floor(-6, 2), -3);
    assert_eq!(div_floor(0, 5), 0);
    assert_eq!(div_floor(-1, 3000), -1);
}

#[test]
fn effective_resolution_scales_by_zoom() {
    assert_eq!(effective_resolution(3000, 1000), 3000);
    assert_eq!(effective_resolution(3000, 2000), 6000);
    assert_eq!(effective_resolution(3000, 500), 1500);
    // floored at one source unit per pixel
    assert_eq!(effective_resolution(1, 1), 1);
}

#[test]
fn bbox_follows_projection_formula() {
    // The end-to-end viewport of the rendering scenario: window 978x733.
    let mut vp = zurich_viewport();
    let ev = MapEvent { offset: None, zoom: None };
    let (center, res, bbox) = apply_map_event(&mut vp, 978, 733, &ev);
    assert_eq!(res, 3000);
    assert_eq!(center, Coord { x: 853_000_000, y: 4_737_000_000 });
    // center +/- window/2 * resolution, exactly
    assert_eq!(
        bbox,
        BBox {
            min_x: 853_000_000 - 978 * 3000 / 2,
            min_y: 4_737_000_000 - 733 * 3000 / 2,
            max_x: 853_000_000 + 978 * 3000 / 2,
            max_y: 4_737_000_000 + 733 * 3000 / 2,
        }
    );
    assert_eq!(bbox.min_x, 851_533_000);
    assert_eq!(bbox.min_y, 4_735_900_500);
    assert_eq!(bbox.max_x, 854_467_000);
    assert_eq!(bbox.max_y, 4_738_099_500);
}

#[test]
fn apply_map_event_updates_offset_and_zoom() {
    let mut vp = zurich_viewport();
    let ev = MapEvent { offset: Some(Coord { x: 10, y: -5 }), zoom: Some(2000) };
    let (center, res, _bbox) = apply_map_event(&mut vp, 100, 100, &ev);
    assert_eq!(vp.offset, Coord { x: 10, y: -5 });
    assert_eq!(vp.zoom, 2000);
    assert_eq!(res, 6000);
    // a pixel-sized pan maps to the same screen distance at every zoom:
    // the offset is scaled by the effective resolution.
    assert_eq!(center, Coord { x: 853_000_000 + 10 * 6000, y: 4_737_000_000 - 5 * 6000 });
}

#[test]
fn projection_round_trip_exact_when_divisible() {
    let c: i64 = 853_000_000;
    let res: i64 = 3000;
    let v: i64 = 853_060_000; // 20 pixels from the center, exactly
    let p = project_axis(v, c, res);
    assert_eq!(p, 20);
    assert_eq!(p * res + c, v);
}

#[test]
fn projection_round_trip_within_one_resolution_unit() {
    let c: i64 = 853_000_000;
    let res: i64 = 3000;
    for v in [853_001_000_i64, 853_000_001, 852_999_000, 852_995_500, 853_000_000] {
        let p = project_axis(v, c, res);
        let back = p * res + c;
        assert!(0 <= v - back && v - back < res);
    }
}

#[test]
fn projection_is_affine() {
    // projecting a point one resolution step further moves the projection
    // by exactly one pixel
    let c: i64 = 1_000_000;
    let res: i64 = 250;
    let p0 = project_axis(c, c, res);
    let p1 = project_axis(c + res, c, res);
    let p4 = project_axis(c + 4 * res, c, res);
    assert_eq!(p0, 0);
    assert_eq!(p1, 1);
    assert_eq!(p4, 4);
    let m3 = project_axis(c - 3 * res, c, res);
    assert_eq!(m3, -3);
}

#[test]
fn unproject_then_project_is_exact() {
    let c: i64 = 853_000_000;
    let res: i64 = 3000;
    for p in [-7_i64, -1, 0, 1, 20, 489] {
        assert_eq!(project_axis(p * res + c, c, res), p);
    }
}
