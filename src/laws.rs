use vstd::prelude::*;
use vstd::arithmetic::div_mod::{lemma_fundamental_div_mod, lemma_fundamental_div_mod_converse};
use crate::angle::{wrap_angle, FULL_TURN, HALF_TURN, PITCH_LIMIT};
use crate::camera::{
    frame_drag_x, frame_drag_y, pitch_after, yaw_after, zoomed_distance, OrbitCamera,
    Orientation, MAX_DISTANCE, MIN_DISTANCE, ZOOM_GAIN,
};
use crate::fixed::Vec2i;
use crate::input::{sum_scroll, sum_x, sum_y};
use crate::orbit::{orbit_offset, Trig, TRIG_ONE};

verus! {

/// A wrapped angle differs from the angle by a whole number of turns.
proof fn lemma_wrap_congruent(a: int)
    ensures
        (wrap_angle(a) - a) % (FULL_TURN as int) == 0,
{
    let f = FULL_TURN as int;
    lemma_fundamental_div_mod(a, f);
    let q = a / f;
    if a % f > HALF_TURN {
        assert(wrap_angle(a) - a == (-q - 1) * f) by (nonlinear_arith)
            requires
                a == f * q + a % f,
                wrap_angle(a) == a % f - f,
        ;
        lemma_fundamental_div_mod_converse(wrap_angle(a) - a, f, -q - 1, 0);
    } else {
        assert(wrap_angle(a) - a == (-q) * f) by (nonlinear_arith)
            requires
                a == f * q + a % f,
                wrap_angle(a) == a % f,
        ;
        lemma_fundamental_div_mod_converse(wrap_angle(a) - a, f, -q, 0);
    }
}

/// An angle already in `(-HALF_TURN, HALF_TURN]` wraps to itself.
proof fn lemma_wrap_identity(a: int)
    requires
        -HALF_TURN < a <= HALF_TURN,
    ensures
        wrap_angle(a) == a,
{
    let f = FULL_TURN as int;
    if a >= 0 {
        lemma_fundamental_div_mod_converse(a, f, 0, a);
    } else {
        lemma_fundamental_div_mod_converse(a, f, -1, a + f);
    }
}

/// Whatever the drag and sensitivity, the pitch after a turn lies in
/// `[-PITCH_LIMIT, PITCH_LIMIT]`.
pub proof fn lemma_pitch_bounded(pitch: int, drag: int, sensitivity: int)
    ensures
        -PITCH_LIMIT <= pitch_after(pitch, drag, sensitivity) <= PITCH_LIMIT,
{
}

/// The yaw after a turn equals the old yaw minus `drag * sensitivity`, up to a
/// whole number of turns.
pub proof fn lemma_yaw_step(yaw: int, drag: int, sensitivity: int)
    ensures
        (yaw_after(yaw, drag, sensitivity) - (yaw - drag * sensitivity)) % (FULL_TURN as int) == 0,
{
    lemma_wrap_congruent(yaw - drag * sensitivity);
}

/// In the frame in which the button is pressed, a well-formed orientation is
/// left as it is, whatever the pointer motion.
pub proof fn lemma_press_frame_still(
    orientation: Orientation,
    motions: Seq<Vec2i>,
    held: bool,
    sensitivity: int,
)
    requires
        orientation.wf(),
    ensures
        yaw_after(orientation.yaw as int, frame_drag_x(motions, held, true), sensitivity)
            == orientation.yaw,
        pitch_after(orientation.pitch as int, frame_drag_y(motions, held, true), sensitivity)
            == orientation.pitch,
{
    lemma_wrap_identity(orientation.yaw as int);
}

/// A frame with no drag and no scroll leaves the orientation, the distance
/// and so the camera's offset from its pivot as they were.
pub proof fn lemma_null_input_still(
    camera: OrbitCamera,
    orientation: Orientation,
    motions: Seq<Vec2i>,
    held: bool,
    just_pressed: bool,
    scrolls: Seq<i64>,
    trig: Trig,
)
    requires
        camera.wf(),
        orientation.wf(),
        sum_x(motions) == 0,
        sum_y(motions) == 0,
        sum_scroll(scrolls) == 0,
    ensures
        yaw_after(
            orientation.yaw as int,
            frame_drag_x(motions, held, just_pressed),
            camera.sensitivity.x as int,
        ) == orientation.yaw,
        pitch_after(
            orientation.pitch as int,
            frame_drag_y(motions, held, just_pressed),
            camera.sensitivity.x as int,
        ) == orientation.pitch,
        zoomed_distance(camera.distance as int, sum_scroll(scrolls)) == camera.distance,
        orbit_offset(zoomed_distance(camera.distance as int, sum_scroll(scrolls)), trig)
            == orbit_offset(camera.distance as int, trig),
{
    lemma_wrap_identity(orientation.yaw as int);
}

/// With yaw and pitch both zero (sines 0, cosines 1) the offset from the
/// pivot is `(0, 0, distance)`: no shrink and no height.
pub proof fn lemma_level_offset(distance: int)
    requires
        0 <= distance,
    ensures
        orbit_offset(
            distance,
            Trig { sin_yaw: 0, cos_yaw: TRIG_ONE, sin_pitch: 0, cos_pitch: TRIG_ONE },
        ) == (0int, 0int, distance),
{
    let one = TRIG_ONE as int;
    assert(distance * one * one == distance * (one * one)) by (nonlinear_arith);
    lemma_fundamental_div_mod_converse(distance * one * one, one * one, distance, 0);
    lemma_fundamental_div_mod_converse(0, one * one, 0, 0);
}

/// Sum of a sequence of per-frame scroll totals.
pub open spec fn scroll_total(scrolls: Seq<int>) -> int
    decreases scrolls.len(),
{
    if scrolls.len() == 0 {
        0
    } else {
        scroll_total(scrolls.drop_last()) + scrolls.last()
    }
}

/// The distance after zooming once per frame by each of `scrolls`, in order.
pub open spec fn distance_after_zooms(d: int, scrolls: Seq<int>) -> int
    decreases scrolls.len(),
{
    if scrolls.len() == 0 {
        d
    } else {
        zoomed_distance(distance_after_zooms(d, scrolls.drop_last()), scrolls.last())
    }
}

/// Zooming is linear: as long as the distance stays within its bounds after
/// every frame, a run of zooms moves it by `-ZOOM_GAIN` times the total
/// scroll, however that total is split across frames.
pub proof fn lemma_zoom_linear(d: int, scrolls: Seq<int>)
    requires
        forall|i: int|
            0 <= i <= scrolls.len() ==> MIN_DISTANCE <= #[trigger] (d - ZOOM_GAIN * scroll_total(
                scrolls.take(i),
            )) <= MAX_DISTANCE,
    ensures
        distance_after_zooms(d, scrolls) == d - ZOOM_GAIN * scroll_total(scrolls),
    decreases scrolls.len(),
{
    if scrolls.len() > 0 {
        let rest = scrolls.drop_last();
        assert forall|i: int| 0 <= i <= rest.len() implies MIN_DISTANCE <= #[trigger] (d - ZOOM_GAIN
            * scroll_total(rest.take(i))) <= MAX_DISTANCE by {
            assert(rest.take(i) =~= scrolls.take(i));
            assert(MIN_DISTANCE <= d - ZOOM_GAIN * scroll_total(scrolls.take(i)) <= MAX_DISTANCE);
        }
        lemma_zoom_linear(d, rest);
        assert(scrolls.take(scrolls.len() as int) =~= scrolls);
        assert(MIN_DISTANCE <= d - ZOOM_GAIN * scroll_total(scrolls.take(scrolls.len() as int))
            <= MAX_DISTANCE);
    } else {
        assert(scrolls.take(0) =~= scrolls);
        assert(MIN_DISTANCE <= d - ZOOM_GAIN * scroll_total(scrolls.take(0)) <= MAX_DISTANCE);
    }
}

} // verus!
