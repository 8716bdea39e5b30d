use chaser_oxide::bezier::{BezierPath, Point};
use chaser_oxide::page::GhostPage;

fn pt(x: i32, y: i32) -> Point {
    Point { x, y }
}

#[test]
fn generated_path_has_steps_plus_one_points_from_start_to_end() {
    let start = pt(10, 20);
    let end = pt(400, 300);
    for _ in 0..20 {
        let path = BezierPath::generate(start, end, 25);
        assert_eq!(path.len(), 26);
        assert_eq!(path[0], start);
        assert_eq!(path[25], end);
    }
}

#[test]
fn generated_path_of_zero_length_stays_put() {
    let p = pt(-5, 7);
    let path = BezierPath::generate(p, p, 3);
    assert_eq!(path, vec![p, p, p, p]);
}

#[test]
fn generated_path_bends_within_the_spread() {
    let start = pt(0, 0);
    let end = pt(1000, 0);
    for _ in 0..20 {
        let path = BezierPath::generate(start, end, 25);
        for p in &path {
            assert!(p.y.abs() <= 300, "point {:?} strays too far", p);
            assert!(p.x >= -300 && p.x <= 1350);
        }
    }
}

#[test]
fn control_points_sit_a_quarter_and_three_quarters_along() {
    let (c1, c2) = BezierPath::control_points(pt(0, 0), pt(100, 0), (0, 0, 0, 0), false);
    assert_eq!(c1, (25, 0));
    assert_eq!(c2, (75, 0));
    let (c1, c2) = BezierPath::control_points(pt(0, 0), pt(100, 0), (3, -4, 5, 6), false);
    assert_eq!(c1, (28, -4));
    assert_eq!(c2, (80, 6));
}

#[test]
fn overshoot_pushes_the_second_control_point_on() {
    let (_, c2) = BezierPath::control_points(pt(0, 0), pt(100, 0), (0, 0, 0, 0), true);
    assert_eq!(c2, (80, -5));
    let (_, c2) = BezierPath::control_points(pt(0, 0), pt(-60, 80), (0, 0, 0, 0), true);
    assert_eq!(c2, (-50, 65));
}

#[test]
fn curve_samples_exact_points_rounded_down() {
    let right = BezierPath::curve(pt(0, 0), (25, 0), (75, 0), pt(100, 0), 4);
    assert_eq!(right, vec![pt(0, 0), pt(22, 0), pt(50, 0), pt(77, 0), pt(100, 0)]);
    let left = BezierPath::curve(pt(0, 0), (-25, 0), (-75, 0), pt(-100, 0), 4);
    assert_eq!(left, vec![pt(0, 0), pt(-23, 0), pt(-50, 0), pt(-78, 0), pt(-100, 0)]);
}

#[test]
fn curve_holds_points_to_the_i32_range() {
    let far = 0x3_0000_0000i64;
    let path = BezierPath::curve(pt(i32::MAX, 0), (far, 0), (far, 0), pt(i32::MAX, 0), 2);
    assert_eq!(path[1].x, i32::MAX);
}

#[test]
fn mouse_move_starts_at_cursor_and_lands_near_target() {
    let page = GhostPage::new();
    assert_eq!(page.mouse_position(), pt(0, 0));
    let steps = page.move_mouse_human(pt(500, 300));
    assert_eq!(steps.len(), 26);
    assert_eq!(steps[0].point, pt(0, 0));
    let last = steps[25].point;
    assert!((last.x - 500).abs() <= 2 && (last.y - 300).abs() <= 2);
    for s in &steps {
        assert!(s.pause_ms >= 5 && s.pause_ms < 15);
    }
}

#[test]
fn sequential_moves_start_where_the_last_one_ended() {
    let mut page = GhostPage::new();
    let first = page.move_mouse_human(pt(200, 100));
    for s in &first {
        page.record_mouse_position(s.point);
    }
    let second = page.move_mouse_human(pt(50, 400));
    assert_eq!(second[0].point, first[25].point);
    assert_eq!(page.click(), first[25].point);
}

#[test]
fn a_move_cut_short_resumes_from_the_last_point_reached() {
    let mut page = GhostPage::new();
    let first = page.move_mouse_human(pt(300, 300));
    for s in &first[..10] {
        page.record_mouse_position(s.point);
    }
    let retry = page.move_mouse_human(pt(300, 300));
    assert_eq!(retry[0].point, first[9].point);
}

#[test]
fn jitter_saturates_at_the_coordinate_limit() {
    let page = GhostPage::new();
    let steps = page.move_mouse_human(pt(i32::MAX, i32::MIN));
    let last = steps[25].point;
    assert!(last.x >= i32::MAX - 2);
    assert!(last.y <= i32::MIN + 2);
}

#[test]
fn click_pauses_fall_in_their_ranges() {
    let page = GhostPage::new();
    for _ in 0..50 {
        let (before, after) = page.click_human();
        assert!((50..150).contains(&before));
        assert!((30..80).contains(&after));
    }
}

#[test]
fn click_pauses_vary() {
    let page = GhostPage::new();
    let first = page.click_human();
    assert!((0..100).any(|_| page.click_human() != first));
}
