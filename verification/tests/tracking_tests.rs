use rearview_mirror::geometry::SavedPosition;
use rearview_mirror::tracking::PointerTracker;

fn p(x: i32, y: i32) -> SavedPosition {
    SavedPosition { x, y }
}

#[test]
fn small_moves_stay_in_dead_zone() {
    let mut t = PointerTracker::new(p(500, 500), p(100, 200));
    assert_eq!(t.step(Some(p(502, 501))), None);
    assert_eq!(t.step(Some(p(498, 498))), None);
    assert!(!t.moved_past_dead_zone);
}

#[test]
fn leaving_dead_zone_follows_pointer_from_then_on() {
    let mut t = PointerTracker::new(p(500, 500), p(100, 200));
    assert_eq!(t.step(Some(p(504, 500))), Some(p(104, 200)));
    assert!(t.moved_past_dead_zone);
    assert_eq!(t.step(Some(p(501, 500))), Some(p(101, 200)));
    assert_eq!(t.step(Some(p(500, 500))), Some(p(100, 200)));
}

#[test]
fn diagonal_edge_of_dead_zone() {
    let mut t = PointerTracker::new(p(0, 0), p(10, 10));
    assert_eq!(t.step(Some(p(2, 3))), None);
    assert_eq!(t.step(Some(p(-3, -3))), Some(p(7, 7)));
}

#[test]
fn missing_pointer_sample_changes_nothing() {
    let mut t = PointerTracker::new(p(0, 0), p(10, 10));
    let before = t;
    assert_eq!(t.step(None), None);
    assert_eq!(t, before);
}
