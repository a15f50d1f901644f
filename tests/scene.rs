use times_circle::scene::{TimesCircleApp, MAX_POINTS, MAX_POINT_RADIUS, MAX_STROKE, ZOOM_FLOOR};
use times_circle::style::{ColorMode, Rgba};

fn playing(num_points: usize, multiplier: u64, step_size: u64) -> TimesCircleApp {
    let mut app = TimesCircleApp::new();
    app.set_num_points(num_points);
    app.set_multiplier(multiplier);
    app.set_step_size(step_size);
    app.play();
    app
}

#[test]
fn new_has_the_start_settings() {
    let app = TimesCircleApp::new();
    assert!(app.is_paused());
    assert_eq!(app.num_points(), 500);
    assert_eq!(app.multiplier(), 2_000_000);
    assert_eq!(app.step_size(), 100_000);
    assert_eq!(app.stroke(), 300_000);
    assert_eq!(app.zoom(), 850_000);
    assert_eq!(app.rotation(), 500_000);
    assert_eq!(app.offset(), (0, 0));
    assert_eq!(app.color_mode(), ColorMode::Monochrome);
    assert_eq!(app.point_radius(), 2_000_000);
    assert_eq!(app.line_color(), Rgba { r: 0, g: 0, b: 0, a: 255 });
    assert_eq!(app.background_color(), Rgba { r: 255, g: 255, b: 255, a: 255 });
    assert_eq!(app.point_color(), Rgba { r: 0, g: 0, b: 0, a: 255 });
}

#[test]
fn step_crosses_the_count_then_stops() {
    let mut app = playing(10, 9_950_000, 100_000);
    assert!(app.step());
    assert_eq!(app.multiplier(), 10_050_000);
    assert!(!app.step());
    assert_eq!(app.multiplier(), 10_050_000);
}

#[test]
fn step_while_paused_changes_nothing() {
    let mut app = playing(10, 3_000_000, 100_000);
    app.pause();
    for _ in 0..5 {
        assert!(!app.step());
        assert_eq!(app.multiplier(), 3_000_000);
    }
}

#[test]
fn step_from_zero_animates() {
    let mut app = playing(10, 0, 250_000);
    assert!(app.step());
    assert_eq!(app.multiplier(), 250_000);
}

#[test]
fn step_of_zero_size_keeps_going() {
    let mut app = playing(10, 4_000_000, 0);
    for _ in 0..3 {
        assert!(app.step());
        assert_eq!(app.multiplier(), 4_000_000);
    }
}

#[test]
fn step_with_no_points_stops() {
    let mut app = playing(0, 5_000_000, 100_000);
    assert_eq!(app.multiplier(), 0);
    assert!(!app.step());
    assert_eq!(app.multiplier(), 0);
}

#[test]
fn settings_are_held_to_their_ranges() {
    let mut app = TimesCircleApp::new();
    app.set_num_points(20_000);
    assert_eq!(app.num_points(), MAX_POINTS);
    app.set_num_points(10);
    app.set_multiplier(11_000_000);
    assert_eq!(app.multiplier(), 10_000_000);
    app.set_num_points(4);
    assert_eq!(app.multiplier(), 4_000_000);
    app.set_step_size(2_000_000);
    assert_eq!(app.step_size(), 1_000_000);
    app.set_step_size(1_500);
    assert_eq!(app.step_size(), 1_500);
    app.set_stroke(5_000_000);
    assert_eq!(app.stroke(), MAX_STROKE);
    app.set_point_radius(50_000_000);
    assert_eq!(app.point_radius(), MAX_POINT_RADIUS);
    assert!(app.shows_points());
    app.set_point_radius(0);
    assert!(!app.shows_points());
}

#[test]
fn drag_accumulates_and_saturates() {
    let mut app = TimesCircleApp::new();
    app.drag(1_500_000, -2_000_000);
    app.drag(500_000, 500_000);
    assert_eq!(app.offset(), (2_000_000, -1_500_000));
    app.drag(i64::MAX, i64::MIN);
    assert_eq!(app.offset(), (i64::MAX, i64::MIN));
}

#[test]
fn zoom_scales_and_never_reaches_zero() {
    let mut app = TimesCircleApp::new();
    app.zoom_by(2_000_000);
    assert_eq!(app.zoom(), 1_700_000);
    app.zoom_by(500_000);
    assert_eq!(app.zoom(), 850_000);
    for factor in [0i64, -1, -1_000_000, i64::MIN, 1] {
        let mut app = TimesCircleApp::new();
        app.zoom_by(factor);
        assert_eq!(app.zoom(), ZOOM_FLOOR);
        assert!(app.zoom() > 0);
    }
    let mut app = TimesCircleApp::new();
    for _ in 0..10 {
        app.zoom_by(1_000);
        assert!(app.zoom() >= ZOOM_FLOOR);
    }
    let mut app = TimesCircleApp::new();
    for _ in 0..10 {
        app.zoom_by(i64::MAX);
    }
    assert_eq!(app.zoom(), u64::MAX);
}

#[test]
fn zoom_toward_keeps_pointer_point_in_place() {
    let mut app = TimesCircleApp::new();
    // View centre at (400, 300) px, pointer at (500, 300) px, zoom doubled:
    // the circle centre moves from 100 px left of the pointer to 200 px left.
    app.zoom_toward(2_000_000, 400_000_000, 300_000_000, 500_000_000, 300_000_000);
    assert_eq!(app.zoom(), 1_700_000);
    assert_eq!(app.offset(), (-100_000_000, 0));
    // Halving the zoom about the same pointer brings it back.
    app.zoom_toward(500_000, 400_000_000, 300_000_000, 500_000_000, 300_000_000);
    assert_eq!(app.zoom(), 850_000);
    assert_eq!(app.offset(), (0, 0));
}

#[test]
fn zoom_toward_saturates_offset() {
    let mut app = TimesCircleApp::new();
    app.zoom_toward(i64::MAX, i64::MAX, i64::MAX, i64::MIN, i64::MIN);
    assert_eq!(app.offset(), (i64::MAX, i64::MAX));
    assert!(app.zoom() > 0);
    let mut app = TimesCircleApp::new();
    app.zoom_toward(i64::MAX, i64::MIN, 0, i64::MAX, 0);
    assert_eq!(app.offset(), (i64::MIN, 0));
}

#[test]
fn rotate_wraps_within_one_turn() {
    let mut app = TimesCircleApp::new();
    app.rotate(600_000);
    assert_eq!(app.rotation(), 100_000);
    app.rotate(-250_000);
    assert_eq!(app.rotation(), 850_000);
    app.rotate(i64::MIN);
    assert!(app.rotation() < 1_000_000);
}

#[test]
fn multitouch_zooms_turns_and_pans() {
    let mut app = TimesCircleApp::new();
    app.handle_multitouch(1_100_000, 250_000, 3_000_000, -4_000_000);
    assert_eq!(app.zoom(), 935_000);
    assert_eq!(app.rotation(), 750_000);
    assert_eq!(app.offset(), (3_000_000, -4_000_000));
    app.handle_multitouch(-3, 0, 0, 0);
    assert_eq!(app.zoom(), ZOOM_FLOOR);
}

#[test]
fn targets_and_angles_follow_the_scene() {
    let mut app = TimesCircleApp::new();
    app.set_num_points(4);
    app.set_multiplier(2_500_000);
    assert_eq!(app.line_targets(), vec![0, 2, 1, 3]);
    assert_eq!(app.point_angles(), vec![500_000, 750_000, 0, 250_000]);
    app.set_num_points(0);
    assert!(app.line_targets().is_empty());
    assert!(app.point_angles().is_empty());
}

#[test]
fn circle_radius_uses_shorter_half_extent() {
    let app = TimesCircleApp::new();
    assert_eq!(app.circle_radius(400_000_000, 300_000_000), 255_000_000);
    assert_eq!(app.circle_radius(200_000_000, 300_000_000), 170_000_000);
    let mut app = TimesCircleApp::new();
    app.zoom_by(i64::MAX);
    app.zoom_by(i64::MAX);
    assert_eq!(app.circle_radius(u64::MAX, u64::MAX), u64::MAX);
}

#[test]
fn colour_mode_cycles_with_labels() {
    let mut app = TimesCircleApp::new();
    assert_eq!(app.color_mode().label(), "Monochrome");
    assert!(app.color_mode().uses_line_color());
    app.cycle_color_mode();
    assert_eq!(app.color_mode(), ColorMode::Length);
    assert_eq!(app.color_mode().label(), "Length");
    assert!(!app.color_mode().uses_line_color());
    app.cycle_color_mode();
    assert_eq!(app.color_mode(), ColorMode::Radial);
    assert_eq!(app.color_mode().label(), "Radial");
    app.cycle_color_mode();
    assert_eq!(app.color_mode(), ColorMode::Monochrome);
}

#[test]
fn colours_are_set() {
    let mut app = TimesCircleApp::new();
    let red = Rgba::opaque(255, 0, 0);
    app.set_line_color(red);
    app.set_background_color(Rgba { r: 1, g: 2, b: 3, a: 4 });
    app.set_point_color(red);
    assert_eq!(app.line_color(), red);
    assert_eq!(app.background_color(), Rgba { r: 1, g: 2, b: 3, a: 4 });
    assert_eq!(app.point_color(), Rgba { r: 255, g: 0, b: 0, a: 255 });
}
