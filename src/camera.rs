use vstd::prelude::*;
use crate::angle::{clamp, clamp_pitch, lemma_wrap_turns, turn_remainder, wrap, wrap_angle, FULL_TURN, HALF_TURN, PITCH_LIMIT};
use crate::fixed::{Vec2i, Vec3i};
use crate::input::{sum_scroll, sum_x, sum_y, total_motion, total_scroll, word};

verus! {

/// Distance change per unit of scroll.
pub const ZOOM_GAIN: i64 = 25;

/// The closest the camera may come to its pivot.
pub const MIN_DISTANCE: i64 = 1;

/// The farthest the camera may go from its pivot.
pub const MAX_DISTANCE: i64 = 1_000_000_000_000_000;

/// The largest magnitude of a pivot coordinate.
pub const MAX_COORD: i64 = 1_000_000_000_000_000;

/// An orbit rig: the pivot the camera looks toward, its distance from it, and
/// the rotation per unit of pointer motion (in millidegrees, so that a drag
/// counted in thousandths of a unit turns by microdegrees).
#[derive(Clone, Copy, Debug, PartialEq, Eq, Structural)]
pub struct OrbitCamera {
    pub orbit: Vec3i,
    pub distance: i64,
    pub sensitivity: Vec2i,
}

/// The camera's rotation as yaw (about the vertical axis), pitch and roll,
/// applied in that order, in microdegrees.
#[derive(Clone, Copy, Debug, PartialEq, Eq, Structural)]
pub struct Orientation {
    pub yaw: i64,
    pub pitch: i64,
    pub roll: i64,
}

impl OrbitCamera {
    /// The distance lies in `[MIN_DISTANCE, MAX_DISTANCE]` and the pivot
    /// within `MAX_COORD` on every axis.
    pub open spec fn wf(self) -> bool {
        &&& MIN_DISTANCE <= self.distance <= MAX_DISTANCE
        &&& -MAX_COORD <= self.orbit.x <= MAX_COORD
        &&& -MAX_COORD <= self.orbit.y <= MAX_COORD
        &&& -MAX_COORD <= self.orbit.z <= MAX_COORD
    }
}

impl Orientation {
    /// Yaw is wrapped into `(-HALF_TURN, HALF_TURN]`, pitch lies in
    /// `[-PITCH_LIMIT, PITCH_LIMIT]`.
    pub open spec fn wf(self) -> bool {
        &&& -HALF_TURN < self.yaw <= HALF_TURN
        &&& -PITCH_LIMIT <= self.pitch <= PITCH_LIMIT
    }
}

/// Pointer motion turns the camera only while the button is held, and not in
/// the frame in which it was pressed.
pub open spec fn drag_applies(held: bool, just_pressed: bool) -> bool {
    held && !just_pressed
}

/// The horizontal drag that a frame applies.
pub open spec fn frame_drag_x(motions: Seq<Vec2i>, held: bool, just_pressed: bool) -> int {
    if drag_applies(held, just_pressed) { sum_x(motions) } else { 0 }
}

/// The vertical drag that a frame applies.
pub open spec fn frame_drag_y(motions: Seq<Vec2i>, held: bool, just_pressed: bool) -> int {
    if drag_applies(held, just_pressed) { sum_y(motions) } else { 0 }
}

/// Yaw after a horizontal drag: turned by `-drag * sensitivity`, wrapped.
pub open spec fn yaw_after(yaw: int, drag: int, sensitivity: int) -> int {
    wrap_angle(yaw - drag * sensitivity)
}

/// Pitch after a vertical drag: turned by `-drag * sensitivity`, clamped.
pub open spec fn pitch_after(pitch: int, drag: int, sensitivity: int) -> int {
    clamp_pitch(pitch - drag * sensitivity)
}

/// `d` limited to `[MIN_DISTANCE, MAX_DISTANCE]`.
pub open spec fn clamp_distance(d: int) -> int {
    if d < MIN_DISTANCE {
        MIN_DISTANCE as int
    } else if d > MAX_DISTANCE {
        MAX_DISTANCE as int
    } else {
        d
    }
}

/// Distance after scrolling by `scroll`: moved by `-ZOOM_GAIN * scroll`, clamped.
pub open spec fn zoomed_distance(d: int, scroll: int) -> int {
    clamp_distance(d - ZOOM_GAIN * scroll)
}

/// New yaw after a horizontal drag of `dx` (any sum of a frame's events).
fn turn_yaw(yaw: i64, dx: i128, sensitivity: i64) -> (r: i64)
    requires
        dx > i128::MIN,
    ensures
        r == yaw_after(yaw as int, dx as int, sensitivity as int),
{
    let m: i128 = turn_remainder(dx);
    let s: i128 = sensitivity as i128;
    proof {
        let f = FULL_TURN as int;
        assert(-(f * word()) <= m * s <= f * word()) by (nonlinear_arith)
            requires
                0 <= m < f,
                -word() <= s < word(),
                f > 0,
        ;
        vstd::arithmetic::div_mod::lemma_fundamental_div_mod(dx as int, f);
        let q = dx as int / f;
        assert(yaw - dx * s == (yaw - m * s) + (-q * s) * f) by (nonlinear_arith)
            requires
                dx as int == f * q + m,
        ;
        lemma_wrap_turns(yaw - m * s, -q * s);
    }
    wrap(yaw as i128 - m * s)
}

/// New pitch after a vertical drag of `dy` (any sum of a frame's events).
fn turn_pitch(pitch: i64, dy: i128, sensitivity: i64) -> (r: i64)
    ensures
        r == pitch_after(pitch as int, dy as int, sensitivity as int),
{
    let s: i128 = sensitivity as i128;
    let big: i128 = 0x1_0000_0000_0000_0000;
    if -big < dy && dy < big {
        proof {
            assert(-(big - 1) * word() <= dy * s <= (big - 1) * word()) by (nonlinear_arith)
                requires
                    -big < dy < big,
                    -word() <= s < word(),
                    big == 2 * word(),
            ;
        }
        clamp(pitch as i128 - dy * s)
    } else if s == 0 {
        clamp(pitch as i128)
    } else if (dy > 0) == (s > 0) {
        proof {
            assert(dy * s >= big) by (nonlinear_arith)
                requires
                    dy >= big || dy <= -big,
                    s != 0,
                    (dy > 0) == (s > 0),
            ;
        }
        -PITCH_LIMIT
    } else {
        proof {
            assert(dy * s <= -big) by (nonlinear_arith)
                requires
                    dy >= big || dy <= -big,
                    s != 0,
                    (dy > 0) != (s > 0),
            ;
        }
        PITCH_LIMIT
    }
}

/// Turns the camera by one frame of pointer motion (each event counted in
/// thousandths of a unit of motion). The motion is summed; it
/// applies only while the button is held and not in the frame in which it was
/// pressed. Both axes scale by the horizontal sensitivity. Yaw wraps, pitch is
/// clamped to a quarter turn either way, roll is kept.
pub fn rotate_camera(
    motions: &Vec<Vec2i>,
    held: bool,
    just_pressed: bool,
    camera: &OrbitCamera,
    orientation: &mut Orientation,
)
    ensures
        final(orientation).yaw == yaw_after(
            old(orientation).yaw as int,
            frame_drag_x(motions@, held, just_pressed),
            camera.sensitivity.x as int,
        ),
        final(orientation).pitch == pitch_after(
            old(orientation).pitch as int,
            frame_drag_y(motions@, held, just_pressed),
            camera.sensitivity.x as int,
        ),
        final(orientation).roll == old(orientation).roll,
        final(orientation).wf(),
{
    let (dx, dy) = if held && !just_pressed {
        total_motion(motions)
    } else {
        (0i128, 0i128)
    };
    orientation.yaw = turn_yaw(orientation.yaw, dx, camera.sensitivity.x);
    orientation.pitch = turn_pitch(orientation.pitch, dy, camera.sensitivity.x);
}

/// Moves the camera toward or away from its pivot by one frame of scrolling
/// (each event counted in thousandths of a line): the distance changes by `-ZOOM_GAIN` times the frame's total scroll and
/// is kept in `[MIN_DISTANCE, MAX_DISTANCE]`.
pub fn zoom_camera(scrolls: &Vec<i64>, camera: &mut OrbitCamera)
    ensures
        final(camera).distance == zoomed_distance(old(camera).distance as int, sum_scroll(scrolls@)),
        final(camera).orbit == old(camera).orbit,
        final(camera).sensitivity == old(camera).sensitivity,
{
    let total: i128 = total_scroll(scrolls);
    let big: i128 = 0x1_0000_0000_0000_0000;
    if total >= big {
        camera.distance = MIN_DISTANCE;
    } else if total <= -big {
        camera.distance = MAX_DISTANCE;
    } else {
        assert(-25 * big < (ZOOM_GAIN as i128) * total < 25 * big) by (nonlinear_arith)
            requires
                -big < total < big,
                ZOOM_GAIN == 25,
        ;
        let d: i128 = camera.distance as i128 - (ZOOM_GAIN as i128) * total;
        camera.distance = if d < MIN_DISTANCE as i128 {
            MIN_DISTANCE
        } else if d > MAX_DISTANCE as i128 {
            MAX_DISTANCE
        } else {
            d as i64
        };
    }
}

} // verus!
