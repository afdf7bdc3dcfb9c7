use mapmesh::assemble::{assemble_feature, GeomEvent};
use mapmesh::error::MapError;
use mapmesh::geom::Coord;

const RES: i64 = 3000;

fn center() -> Coord {
    Coord { x: 853_000_000, y: 4_737_000_000 }
}

fn ring_begin(idx: usize, expected: usize) -> GeomEvent {
    GeomEvent::RingBegin { exterior: idx == 0, expected, idx }
}

fn coord(x: i64, y: i64, idx: usize) -> GeomEvent {
    GeomEvent::Coordinate { x, y, idx }
}

#[test]
fn assembles_one_projected_triangle() {
    let events = vec![
        ring_begin(0, 3),
        coord(853_000_000, 4_737_000_000, 0),
        coord(853_100_000, 4_737_050_000, 1),
        coord(853_050_000, 4_737_100_000, 2),
        GeomEvent::PolygonEnd,
    ];
    let paths = assemble_feature(&events, center(), RES).expect("valid stream");
    assert_eq!(paths.len(), 1);
    let p = &paths[0];
    assert_eq!(p.hole_starts.len(), 0);
    assert_eq!(p.coords.len(), 3);
    // px = (x - center) / resolution, floored, per axis
    assert_eq!(p.coords[0], Coord { x: 0, y: 0 });
    assert_eq!(p.coords[1], Coord { x: 33, y: 16 });
    assert_eq!(p.coords[2], Coord { x: 16, y: 33 });
}

#[test]
fn two_point_exterior_ring_is_malformed() {
    let events = vec![
        ring_begin(0, 2),
        coord(853_000_000, 4_737_000_000, 0),
        coord(853_100_000, 4_737_050_000, 1),
        GeomEvent::PolygonEnd,
    ];
    assert_eq!(assemble_feature(&events, center(), RES).unwrap_err(), MapError::GeometryMalformed);
}

#[test]
fn polygon_end_without_rings_is_malformed() {
    let events = vec![GeomEvent::PolygonEnd];
    assert_eq!(assemble_feature(&events, center(), RES).unwrap_err(), MapError::GeometryMalformed);
}

#[test]
fn hole_before_exterior_is_malformed() {
    let events = vec![
        GeomEvent::RingBegin { exterior: false, expected: 3, idx: 0 },
        coord(853_000_000, 4_737_000_000, 0),
    ];
    assert_eq!(assemble_feature(&events, center(), RES).unwrap_err(), MapError::GeometryMalformed);
}

#[test]
fn coordinate_outside_any_ring_is_malformed() {
    let events = vec![coord(853_000_000, 4_737_000_000, 0)];
    assert_eq!(assemble_feature(&events, center(), RES).unwrap_err(), MapError::GeometryMalformed);
}

#[test]
fn out_of_order_coordinate_index_is_malformed() {
    let events = vec![
        ring_begin(0, 3),
        coord(853_000_000, 4_737_000_000, 0),
        coord(853_100_000, 4_737_050_000, 2),
    ];
    assert_eq!(assemble_feature(&events, center(), RES).unwrap_err(), MapError::GeometryMalformed);
}

#[test]
fn unterminated_polygon_is_malformed() {
    let events = vec![
        ring_begin(0, 3),
        coord(853_000_000, 4_737_000_000, 0),
        coord(853_100_000, 4_737_050_000, 1),
        coord(853_050_000, 4_737_100_000, 2),
    ];
    assert_eq!(assemble_feature(&events, center(), RES).unwrap_err(), MapError::GeometryMalformed);
}

#[test]
fn hole_ring_start_is_recorded() {
    let events = vec![
        ring_begin(0, 4),
        coord(853_000_000, 4_737_000_000, 0),
        coord(853_030_000, 4_737_000_000, 1),
        coord(853_030_000, 4_737_030_000, 2),
        coord(853_000_000, 4_737_030_000, 3),
        ring_begin(1, 3),
        coord(853_009_000, 4_737_009_000, 0),
        coord(853_009_000, 4_737_021_000, 1),
        coord(853_021_000, 4_737_021_000, 2),
        GeomEvent::PolygonEnd,
    ];
    let paths = assemble_feature(&events, center(), RES).expect("valid stream");
    assert_eq!(paths.len(), 1);
    assert_eq!(paths[0].coords.len(), 7);
    assert_eq!(paths[0].hole_starts, vec![4]);
}

#[test]
fn one_feature_may_hold_several_polygons() {
    let mut events = Vec::new();
    for shift in [0_i64, 3_000_000] {
        events.push(ring_begin(0, 3));
        events.push(coord(853_000_000 + shift, 4_737_000_000, 0));
        events.push(coord(853_100_000 + shift, 4_737_050_000, 1));
        events.push(coord(853_050_000 + shift, 4_737_100_000, 2));
        events.push(GeomEvent::PolygonEnd);
    }
    let paths = assemble_feature(&events, center(), RES).expect("valid stream");
    assert_eq!(paths.len(), 2);
    assert_eq!(paths[1].coords[0], Coord { x: 1000, y: 0 });
}

#[test]
fn empty_stream_yields_no_polygons() {
    let events: Vec<GeomEvent> = Vec::new();
    let paths = assemble_feature(&events, center(), RES).expect("empty stream is fine");
    assert_eq!(paths.len(), 0);
}

#[test]
fn coordinate_outside_the_representable_window_is_malformed() {
    // a source coordinate beyond the fixed-point window cannot be projected
    let events = vec![
        ring_begin(0, 3),
        coord(900_000_000_000_000_000, 4_737_000_000, 0),
    ];
    assert_eq!(assemble_feature(&events, center(), RES).unwrap_err(), MapError::GeometryMalformed);
}
