use orbit_camera::angle::{clamp, wrap, DEGREE, FULL_TURN, HALF_TURN, PITCH_LIMIT};
use orbit_camera::camera::{
    rotate_camera, zoom_camera, Orientation, MAX_DISTANCE, MIN_DISTANCE,
};
use orbit_camera::fixed::{Vec2i, Vec3i};
use orbit_camera::input::{total_motion, total_scroll};
use orbit_camera::scene::{start_camera, start_orientation};

fn level() -> Orientation {
    Orientation { yaw: 0, pitch: 0, roll: 0 }
}

#[test]
fn yaw_turns_by_drag_times_sensitivity() {
    let camera = start_camera();
    let mut o = level();
    // ten units of motion at a tenth of a degree each: one degree
    rotate_camera(&vec![Vec2i::new(4_000, 0), Vec2i::new(6_000, 0)], true, false, &camera, &mut o);
    assert_eq!(o.yaw, -DEGREE);
    assert_eq!(o.pitch, 0);
    rotate_camera(&vec![Vec2i::new(-25_000, 0)], true, false, &camera, &mut o);
    assert_eq!(o.yaw, 3 * DEGREE / 2);
}

#[test]
fn pitch_turns_by_drag_times_horizontal_sensitivity() {
    let mut camera = start_camera();
    camera.sensitivity = Vec2i::new(100, 700);
    let mut o = level();
    rotate_camera(&vec![Vec2i::new(0, 20_000)], true, false, &camera, &mut o);
    assert_eq!(o.pitch, -2 * DEGREE);
    assert_eq!(o.yaw, 0);
}

#[test]
fn roll_is_kept() {
    let camera = start_camera();
    let mut o = Orientation { yaw: 0, pitch: 0, roll: 7 * DEGREE };
    rotate_camera(&vec![Vec2i::new(30_000, -40_000)], true, false, &camera, &mut o);
    assert_eq!(o.roll, 7 * DEGREE);
    assert_eq!(o.yaw, -3 * DEGREE);
    assert_eq!(o.pitch, 4 * DEGREE);
}

#[test]
fn yaw_wraps_past_half_turn() {
    let camera = start_camera();
    let mut o = Orientation { yaw: 179 * DEGREE, pitch: 0, roll: 0 };
    rotate_camera(&vec![Vec2i::new(-20_000, 0)], true, false, &camera, &mut o);
    assert_eq!(o.yaw, -179 * DEGREE);
    let mut o = Orientation { yaw: -179 * DEGREE, pitch: 0, roll: 0 };
    rotate_camera(&vec![Vec2i::new(10_000, 0)], true, false, &camera, &mut o);
    assert_eq!(o.yaw, 180 * DEGREE);
}

#[test]
fn pitch_stays_within_quarter_turn() {
    let camera = start_camera();
    let mut o = level();
    let drags = [900_000i64, 5_000_000, -3_000_000, -4_000_000, 2_500_000, -10];
    for d in drags {
        rotate_camera(&vec![Vec2i::new(0, d)], true, false, &camera, &mut o);
        assert!(o.pitch >= -PITCH_LIMIT && o.pitch <= PITCH_LIMIT);
    }
    let mut o = level();
    rotate_camera(&vec![Vec2i::new(0, 2_000_000)], true, false, &camera, &mut o);
    assert_eq!(o.pitch, -PITCH_LIMIT);
    rotate_camera(&vec![Vec2i::new(0, -5_000_000)], true, false, &camera, &mut o);
    assert_eq!(o.pitch, PITCH_LIMIT);
}

#[test]
fn press_frame_ignores_motion() {
    let camera = start_camera();
    let start = Orientation { yaw: 12 * DEGREE, pitch: -30 * DEGREE, roll: 0 };
    let mut o = start;
    rotate_camera(&vec![Vec2i::new(55_000, -72_000)], true, true, &camera, &mut o);
    assert_eq!(o, start);
    rotate_camera(&vec![Vec2i::new(55_000, -72_000)], false, true, &camera, &mut o);
    assert_eq!(o, start);
}

#[test]
fn released_button_ignores_motion() {
    let camera = start_camera();
    let start = Orientation { yaw: -45 * DEGREE, pitch: 10 * DEGREE, roll: 0 };
    let mut o = start;
    rotate_camera(&vec![Vec2i::new(99_000, 12_000)], false, false, &camera, &mut o);
    assert_eq!(o, start);
}

#[test]
fn null_frame_changes_nothing() {
    let mut camera = start_camera();
    let start = Orientation { yaw: 33 * DEGREE, pitch: -12 * DEGREE, roll: 0 };
    let mut o = start;
    rotate_camera(&vec![Vec2i::new(5_000, 1_000), Vec2i::new(-5_000, -1_000)], true, false, &camera, &mut o);
    rotate_camera(&vec![], true, false, &camera, &mut o);
    zoom_camera(&vec![], &mut camera);
    zoom_camera(&vec![250, -250], &mut camera);
    assert_eq!(o, start);
    assert_eq!(camera, start_camera());
}

#[test]
fn extreme_motion_does_not_overflow() {
    let mut camera = start_camera();
    camera.sensitivity = Vec2i::new(i64::MIN, i64::MAX);
    let mut o = level();
    let m = Vec2i::new(i64::MAX, i64::MIN);
    rotate_camera(&vec![m, m, m], true, false, &camera, &mut o);
    assert!(o.yaw > -HALF_TURN && o.yaw <= HALF_TURN);
    assert_eq!(o.pitch, -PITCH_LIMIT);
}

#[test]
fn zoom_moves_by_gain_times_scroll() {
    let mut camera = start_camera();
    zoom_camera(&vec![1_000], &mut camera);
    assert_eq!(camera.distance, 775_000);
    zoom_camera(&vec![-400, -600, -2_000], &mut camera);
    assert_eq!(camera.distance, 850_000);
    assert_eq!(camera.orbit, Vec3i { x: 0, y: 0, z: 0 });
}

#[test]
fn zoom_is_linear_in_total_scroll() {
    let mut split = start_camera();
    zoom_camera(&vec![1_500], &mut split);
    zoom_camera(&vec![-700, 3_200], &mut split);
    zoom_camera(&vec![1_000], &mut split);
    let mut whole = start_camera();
    zoom_camera(&vec![5_000], &mut whole);
    assert_eq!(split.distance, whole.distance);
    assert_eq!(whole.distance, 800_000 - 25 * 5_000);
}

#[test]
fn zoom_keeps_distance_positive() {
    let mut camera = start_camera();
    zoom_camera(&vec![32_000], &mut camera);
    assert_eq!(camera.distance, MIN_DISTANCE);
    zoom_camera(&vec![i64::MAX, i64::MAX], &mut camera);
    assert_eq!(camera.distance, MIN_DISTANCE);
    zoom_camera(&vec![i64::MIN, i64::MIN], &mut camera);
    assert_eq!(camera.distance, MAX_DISTANCE);
}

#[test]
fn totals_add_every_event() {
    let (x, y) = total_motion(&vec![Vec2i::new(3, -4), Vec2i::new(10, 20), Vec2i::new(i64::MAX, i64::MIN)]);
    assert_eq!(x, 13 + i64::MAX as i128);
    assert_eq!(y, 16 + i64::MIN as i128);
    assert_eq!(total_motion(&vec![]), (0, 0));
    assert_eq!(total_scroll(&vec![7, -2, 11]), 16);
    assert_eq!(total_scroll(&vec![]), 0);
}

#[test]
fn wrap_and_clamp_angles() {
    assert_eq!(wrap(FULL_TURN as i128), 0);
    assert_eq!(wrap(HALF_TURN as i128), HALF_TURN);
    assert_eq!(wrap(-(HALF_TURN as i128)), HALF_TURN);
    assert_eq!(wrap(-(FULL_TURN as i128) * 3 - 5), -5);
    assert_eq!(wrap(270 * DEGREE as i128), -90 * DEGREE);
    assert_eq!(clamp(91 * DEGREE as i128), PITCH_LIMIT);
    assert_eq!(clamp(-91 * DEGREE as i128), -PITCH_LIMIT);
    assert_eq!(clamp(-89 * DEGREE as i128), -89 * DEGREE);
}

#[test]
fn start_state() {
    let camera = start_camera();
    assert_eq!(camera.orbit, Vec3i { x: 0, y: 0, z: 0 });
    assert_eq!(camera.distance, 800_000);
    assert_eq!(camera.sensitivity, Vec2i::new(100, 100));
    assert_eq!(start_orientation(), Orientation { yaw: 0, pitch: 0, roll: 0 });
}
