use vstd::prelude::*;
use vstd::arithmetic::div_mod::{lemma_fundamental_div_mod, lemma_fundamental_div_mod_converse};
use crate::camera::{OrbitCamera, MAX_COORD, MAX_DISTANCE};
use crate::fixed::Vec3i;

verus! {

/// The value 1 for a sine or cosine; trigonometric values are counted in
/// millionths.
pub const TRIG_ONE: i64 = 1_000_000;

/// Sines and cosines of a camera's yaw and pitch, in millionths.
#[derive(Clone, Copy, Debug, PartialEq, Eq, Structural)]
pub struct Trig {
    pub sin_yaw: i64,
    pub cos_yaw: i64,
    pub sin_pitch: i64,
    pub cos_pitch: i64,
}

impl Trig {
    /// Each value lies in `[-TRIG_ONE, TRIG_ONE]`.
    pub open spec fn wf(self) -> bool {
        &&& -TRIG_ONE <= self.sin_yaw <= TRIG_ONE
        &&& -TRIG_ONE <= self.cos_yaw <= TRIG_ONE
        &&& -TRIG_ONE <= self.sin_pitch <= TRIG_ONE
        &&& -TRIG_ONE <= self.cos_pitch <= TRIG_ONE
    }
}

/// `d * a * b` with `a` and `b` read as fractions of `TRIG_ONE`, rounded down.
pub open spec fn scaled(d: int, a: int, b: int) -> int {
    (d * a * b) / (TRIG_ONE * TRIG_ONE)
}

/// The camera's offset from its pivot. With `tx = d sin(yaw)`,
/// `ty = d cos(yaw)`, `tz = d sin(pitch)` and the horizontal shrink
/// `(d - d cos(pitch)) / d`, the offset is `(tx (1 - shrink), -tz,
/// ty (1 - shrink))`; as `1 - shrink` is `cos(pitch)`, that is the value below.
pub open spec fn orbit_offset(d: int, t: Trig) -> (int, int, int) {
    (
        scaled(d, t.sin_yaw as int, t.cos_pitch as int),
        -scaled(d, t.sin_pitch as int, TRIG_ONE as int),
        scaled(d, t.cos_yaw as int, t.cos_pitch as int),
    )
}

/// `v / d` rounded down.
fn div_floor(v: i128, d: i128) -> (r: i128)
    requires
        d > 0,
        -0x1_0000_0000_0000_0000_0000_0000 < v < 0x1_0000_0000_0000_0000_0000_0000,
        d < 0x1_0000_0000_0000_0000,
    ensures
        r == v as int / d as int,
{
    if v >= 0 {
        ((v as u128) / (d as u128)) as i128
    } else {
        let w: u128 = (-v) as u128 + (d as u128) - 1;
        let q: u128 = w / (d as u128);
        proof {
            lemma_fundamental_div_mod(w as int, d as int);
            let r0 = w as int % d as int;
            assert(v as int == (-(q as int)) * (d as int) + (d - 1 - r0)) by (nonlinear_arith)
                requires
                    w as int == (d as int) * (q as int) + r0,
                    w as int == -(v as int) + d - 1,
            ;
            lemma_fundamental_div_mod_converse(v as int, d as int, -(q as int), d - 1 - r0);
        }
        -(q as i128)
    }
}

/// `scaled(d, a, b)`, for the ranges that a well-formed camera and trig
/// values have.
fn scale(d: i64, a: i64, b: i64) -> (r: i64)
    requires
        0 <= d <= MAX_DISTANCE,
        -TRIG_ONE <= a <= TRIG_ONE,
        -TRIG_ONE <= b <= TRIG_ONE,
    ensures
        r == scaled(d as int, a as int, b as int),
        -d <= r <= d,
{
    let one: i128 = TRIG_ONE as i128;
    proof {
        assert(-(d as int) * one <= d * a <= (d as int) * one) by (nonlinear_arith)
            requires
                0 <= d,
                -one <= a <= one,
        ;
        assert(-(d as int) * one * one <= d * a * b <= (d as int) * one * one) by (nonlinear_arith)
            requires
                0 <= d,
                -one <= a <= one,
                -one <= b <= one,
        ;
        assert((d as int) * one * one <= MAX_DISTANCE * one * one) by (nonlinear_arith)
            requires
                0 <= d <= MAX_DISTANCE,
                one > 0,
        ;
    }
    let p: i128 = (d as i128) * (a as i128) * (b as i128);
    let q: i128 = div_floor(p, one * one);
    proof {
        let dd = one * one;
        lemma_fundamental_div_mod(p as int, dd as int);
        assert(0 <= (p as int) % (dd as int) < dd);
        assert(-(d as int) <= q <= d) by (nonlinear_arith)
            requires
                p as int == dd * (q as int) + ((p as int) % (dd as int)),
                0 <= (p as int) % (dd as int) < dd,
                -(d as int) * dd <= p <= (d as int) * dd,
                dd > 0,
        ;
    }
    q as i64
}

/// The camera's position for its pivot, distance and the trigonometric values
/// of its current yaw and pitch: the pivot plus `orbit_offset`.
pub fn orbit_translation(camera: &OrbitCamera, trig: &Trig) -> (r: Vec3i)
    requires
        camera.wf(),
        trig.wf(),
    ensures
        r.x == camera.orbit.x + orbit_offset(camera.distance as int, *trig).0,
        r.y == camera.orbit.y + orbit_offset(camera.distance as int, *trig).1,
        r.z == camera.orbit.z + orbit_offset(camera.distance as int, *trig).2,
{
    let d: i64 = camera.distance;
    let tx: i64 = scale(d, trig.sin_yaw, trig.cos_pitch);
    let tz: i64 = scale(d, trig.sin_pitch, TRIG_ONE);
    let ty: i64 = scale(d, trig.cos_yaw, trig.cos_pitch);
    assert(MAX_COORD + MAX_DISTANCE < i64::MAX);
    Vec3i { x: camera.orbit.x + tx, y: camera.orbit.y - tz, z: camera.orbit.z + ty }
}

} // verus!
