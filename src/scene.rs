use vstd::prelude::*;
use crate::camera::{OrbitCamera, Orientation};
use crate::fixed::{Vec2i, Vec3i};

verus! {

/// Distance between neighbouring panels along the depth axis.
pub const PANEL_SPACING: i64 = 300_000;

/// Width of a panel and of its overlay.
pub const PANEL_WIDTH: i64 = 818_000;

/// Height of a panel.
pub const PANEL_HEIGHT: i64 = 965_000;

/// Height of a panel's overlay.
pub const OVERLAY_HEIGHT: i64 = 169_000;

/// Height of an overlay above the centre of its panel.
pub const OVERLAY_RISE: i64 = 400_000;

/// Distance of an overlay in front of its panel.
pub const OVERLAY_DEPTH: i64 = 50_000;

/// The camera's starting distance from its pivot.
pub const START_DISTANCE: i64 = 800_000;

/// The camera's starting sensitivity on each axis: a tenth of a degree per
/// unit of pointer motion.
pub const START_SENSITIVITY: i64 = 100;

/// A textured, unlit, alpha-blended rectangle, placed relative to its parent.
#[derive(Clone, Debug)]
pub struct Quad {
    pub position: Vec3i,
    pub width: i64,
    pub height: i64,
    pub texture: String,
}

/// A panel with the overlays that it owns.
#[derive(Clone, Debug)]
pub struct Panel {
    pub quad: Quad,
    pub overlays: Vec<Quad>,
}

/// `q` is a rectangle of the given size and texture at `(x, y, z)`.
pub open spec fn is_quad(q: Quad, x: int, y: int, z: int, w: int, h: int, texture: Seq<char>) -> bool {
    &&& q.position.x == x
    &&& q.position.y == y
    &&& q.position.z == z
    &&& q.width == w
    &&& q.height == h
    &&& q.texture@ == texture
}

/// `p` is a panel at depth `z` carrying one overlay above and in front of it.
pub open spec fn is_panel_at(p: Panel, z: int) -> bool {
    &&& is_quad(p.quad, 0, 0, z, PANEL_WIDTH as int, PANEL_HEIGHT as int, "panel.png"@)
    &&& p.overlays@.len() == 1
    &&& is_quad(
        p.overlays@[0],
        0,
        OVERLAY_RISE as int,
        OVERLAY_DEPTH as int,
        PANEL_WIDTH as int,
        OVERLAY_HEIGHT as int,
        "panel_head.png"@,
    )
}

fn panel_at(z: i64) -> (r: Panel)
    ensures
        is_panel_at(r, z as int),
{
    let overlay = Quad {
        position: Vec3i { x: 0, y: OVERLAY_RISE, z: OVERLAY_DEPTH },
        width: PANEL_WIDTH,
        height: OVERLAY_HEIGHT,
        texture: "panel_head.png".to_owned(),
    };
    Panel {
        quad: Quad {
            position: Vec3i { x: 0, y: 0, z },
            width: PANEL_WIDTH,
            height: PANEL_HEIGHT,
            texture: "panel.png".to_owned(),
        },
        overlays: vec![overlay],
    }
}

/// The scene's three panels, one spacing apart along the depth axis, centred
/// on the origin.
pub fn scene_panels() -> (r: Vec<Panel>)
    ensures
        r@.len() == 3,
        forall|i: int| 0 <= i < 3 ==> is_panel_at(#[trigger] r@[i], (i - 1) * PANEL_SPACING),
{
    let near: i64 = -PANEL_SPACING;
    let r = vec![panel_at(near), panel_at(0), panel_at(PANEL_SPACING)];
    assert(is_panel_at(r@[0], (0 - 1) * PANEL_SPACING));
    r
}

/// The camera rig at start: pivot at the origin, `START_DISTANCE` away, with
/// `START_SENSITIVITY` on both axes.
pub fn start_camera() -> (r: OrbitCamera)
    ensures
        r.orbit == (Vec3i { x: 0, y: 0, z: 0 }),
        r.distance == START_DISTANCE,
        r.sensitivity == (Vec2i { x: START_SENSITIVITY, y: START_SENSITIVITY }),
        r.wf(),
{
    OrbitCamera {
        orbit: Vec3i { x: 0, y: 0, z: 0 },
        distance: START_DISTANCE,
        sensitivity: Vec2i { x: START_SENSITIVITY, y: START_SENSITIVITY },
    }
}

/// The camera's orientation at start: no yaw, pitch or roll.
pub fn start_orientation() -> (r: Orientation)
    ensures
        r == (Orientation { yaw: 0, pitch: 0, roll: 0 }),
        r.wf(),
{
    Orientation { yaw: 0, pitch: 0, roll: 0 }
}

} // verus!
