use orbit_camera::camera::OrbitCamera;
use orbit_camera::fixed::{Vec2i, Vec3i};
use orbit_camera::orbit::{orbit_translation, Trig, TRIG_ONE};
use orbit_camera::scene::{scene_panels, start_camera, PANEL_SPACING};

const SIN_45: i64 = 707_107;

#[test]
fn level_camera_sits_behind_pivot() {
    let camera = OrbitCamera {
        orbit: Vec3i { x: 1_000, y: -2_000, z: 3_000 },
        distance: 800_000,
        sensitivity: Vec2i::new(100, 100),
    };
    let trig = Trig { sin_yaw: 0, cos_yaw: TRIG_ONE, sin_pitch: 0, cos_pitch: TRIG_ONE };
    assert_eq!(orbit_translation(&camera, &trig), Vec3i { x: 1_000, y: -2_000, z: 803_000 });
}

#[test]
fn pitched_camera_at_forty_five_degrees() {
    let camera = start_camera();
    let trig = Trig { sin_yaw: 0, cos_yaw: TRIG_ONE, sin_pitch: SIN_45, cos_pitch: SIN_45 };
    let t = orbit_translation(&camera, &trig);
    // 800 * sin 45 = 565.685..., counted in thousandths and rounded down
    assert_eq!(t, Vec3i { x: 0, y: -565_685, z: 565_685 });
    assert!((t.y as f64 / 1000.0 + 565.7).abs() < 0.05);
    assert!((t.z as f64 / 800_000.0 - (1.0 - 0.2929)).abs() < 0.0001);
}

#[test]
fn yawed_camera_splits_horizontal_offset() {
    let camera = OrbitCamera { orbit: Vec3i { x: 0, y: 0, z: 0 }, distance: 2_000_000, sensitivity: Vec2i::new(1, 1) };
    let trig = Trig { sin_yaw: -TRIG_ONE / 2, cos_yaw: 866_025, sin_pitch: -TRIG_ONE / 2, cos_pitch: 866_025 };
    let t = orbit_translation(&camera, &trig);
    // 2000 * -0.5 * 0.866025 = -866.025; 2000 * 0.866025^2 = 1499.99...
    assert_eq!(t, Vec3i { x: -866_025, y: 1_000_000, z: 1_499_998 });
}

#[test]
fn three_panels_with_overlays() {
    let panels = scene_panels();
    assert_eq!(panels.len(), 3);
    for (i, p) in panels.iter().enumerate() {
        assert_eq!(p.quad.position, Vec3i { x: 0, y: 0, z: (i as i64 - 1) * PANEL_SPACING });
        assert_eq!((p.quad.width, p.quad.height), (818_000, 965_000));
        assert_eq!(p.quad.texture, "panel.png");
        assert_eq!(p.overlays.len(), 1);
        let o = &p.overlays[0];
        assert_eq!(o.position, Vec3i { x: 0, y: 400_000, z: 50_000 });
        assert_eq!((o.width, o.height), (818_000, 169_000));
        assert_eq!(o.texture, "panel_head.png");
    }
}
