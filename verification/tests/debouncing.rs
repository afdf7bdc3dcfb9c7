use mapmesh::debounce::{zoom_of_distance, Debouncer};
use mapmesh::geom::Coord;

#[test]
fn pan_motions_do_not_emit_until_settled() {
    // Pan motions every 50 ms for 500 ms, then silence: nothing may be
    // emitted until 200 ms after the last motion, and then exactly once.
    let mut d = Debouncer::new();
    let mut t: u64 = 0;
    while t <= 500 {
        d.pan_motion(t, 1, 0);
        assert!(d.evaluate(t).is_none());
        t += 50;
    }
    // silence, but the settle threshold has not elapsed yet
    assert!(d.evaluate(600).is_none());
    assert!(d.evaluate(700).is_none()); // exactly 200 ms: still not over
    // 201 ms after the last motion: one emission
    let ev = d.evaluate(701).expect("pan should have settled");
    assert_eq!(ev.offset, Some(Coord { x: 11, y: 0 }));
    assert_eq!(ev.zoom, None);
    // and only one
    assert!(d.evaluate(702).is_none());
    assert!(d.evaluate(10_000).is_none());
}

#[test]
fn release_settles_pan_immediately() {
    let mut d = Debouncer::new();
    d.pan_motion(10, 5, -7);
    d.release();
    let ev = d.evaluate(11).expect("release should settle the pan");
    assert_eq!(ev.offset, Some(Coord { x: 5, y: -7 }));
    assert_eq!(ev.zoom, None);
    assert!(d.evaluate(12).is_none());
}

#[test]
fn release_while_idle_changes_nothing() {
    let mut d = Debouncer::new();
    d.release();
    assert!(d.evaluate(100).is_none());
}

#[test]
fn zoom_settles_after_its_own_threshold() {
    let mut d = Debouncer::new();
    d.scroll(0, -1000); // pull the camera out to distance 2000
    assert!(d.evaluate(100).is_none());
    assert!(d.evaluate(150).is_none()); // exactly 150 ms: still not over
    let ev = d.evaluate(151).expect("zoom should have settled");
    assert_eq!(ev.offset, None);
    assert_eq!(ev.zoom, Some(11_000)); // 1 + 20 * (2000 - 1000) / 2000, in thousandths
    assert!(d.evaluate(152).is_none());
}

#[test]
fn pan_and_zoom_settle_in_one_event() {
    let mut d = Debouncer::new();
    d.pan_motion(0, 3, 4);
    d.scroll(0, -1000);
    let ev = d.evaluate(300).expect("both should have settled");
    assert_eq!(ev.offset, Some(Coord { x: 3, y: 4 }));
    assert_eq!(ev.zoom, Some(11_000));
    assert!(d.evaluate(301).is_none());
}

#[test]
fn motion_refreshes_the_pan_timer() {
    let mut d = Debouncer::new();
    d.pan_motion(0, 1, 0);
    assert!(d.evaluate(190).is_none());
    d.pan_motion(195, 1, 0);
    // 201 ms after the first motion but only 11 ms after the second
    assert!(d.evaluate(201).is_none());
    let ev = d.evaluate(396).expect("settled 201 ms after the refresh");
    assert_eq!(ev.offset, Some(Coord { x: 2, y: 0 }));
}

#[test]
fn zoom_factor_formula() {
    assert_eq!(zoom_of_distance(1000), 1000); // base distance: factor one
    assert_eq!(zoom_of_distance(2000), 11_000);
    assert_eq!(zoom_of_distance(1_000_000), 20_980);
    // pushing far in clamps at the smallest accepted factor
    assert_eq!(zoom_of_distance(500), 1);
}
