use overlay_text::fix::{Fix, FIX_SCALE};
use overlay_text::transform::{
    logical_resolution, transform, CameraState, CoordMode, Vec3, WindowConfig, WindowMode,
    WindowState,
};

fn fx(v: i32) -> Fix {
    Fix::from_i32(v)
}

fn unit_camera_at_origin() -> CameraState {
    CameraState {
        position: Vec3 { x: fx(0), y: fx(0), z: fx(0) },
        right: Vec3 { x: fx(1), y: fx(0), z: fx(0) },
        up: Vec3 { x: fx(0), y: fx(1), z: fx(0) },
        forward: Vec3 { x: fx(0), y: fx(0), z: fx(1) },
        inv_tan_half_fov: fx(1),
        aspect_ratio: fx(1),
    }
}

fn square_window() -> WindowState {
    WindowState {
        physical_width: 1000,
        physical_height: 1000,
        logical_width: 1920,
        logical_height: 1080,
    }
}

#[test]
fn world_projection_is_deterministic() {
    let cam = unit_camera_at_origin();
    let win = square_window();
    let a = transform(fx(3), fx(4), fx(10), CoordMode::WorldProjectedA, Some(cam), &win);
    let b = transform(fx(3), fx(4), fx(10), CoordMode::WorldProjectedA, Some(cam), &win);
    assert!(a.is_some());
    assert_eq!(a, b);
}

#[test]
fn world_projection_sub_kinds_agree() {
    let cam = unit_camera_at_origin();
    let win = square_window();
    let a = transform(fx(3), fx(4), fx(10), CoordMode::WorldProjectedA, Some(cam), &win);
    let b = transform(fx(3), fx(4), fx(10), CoordMode::WorldProjectedB, Some(cam), &win);
    assert_eq!(a, b);
}

#[test]
fn point_behind_camera_is_not_drawn() {
    let cam = unit_camera_at_origin();
    let win = square_window();
    let r = transform(fx(0), fx(0), fx(-1), CoordMode::WorldProjectedA, Some(cam), &win);
    assert_eq!(r, None);
    let on_plane = transform(fx(5), fx(5), fx(0), CoordMode::WorldProjectedA, Some(cam), &win);
    assert_eq!(on_plane, None);
}

#[test]
fn centered_point_lands_mid_screen() {
    // Camera at the origin looking down +Z, 90 degree fov, aspect 1,
    // physical target 1000 x 1000: the world point (0, 0, 10) lands at
    // exactly (500, 500).
    let cam = unit_camera_at_origin();
    let win = square_window();
    let r = transform(fx(0), fx(0), fx(10), CoordMode::WorldProjectedA, Some(cam), &win);
    let (sx, sy) = r.expect("point ahead of the camera must resolve");
    assert_eq!(sx.raw, 500 * FIX_SCALE);
    assert_eq!(sy.raw, 500 * FIX_SCALE);
}

#[test]
fn world_projection_without_camera_is_not_drawn() {
    let win = square_window();
    let r = transform(fx(0), fx(0), fx(10), CoordMode::WorldProjectedA, None, &win);
    assert_eq!(r, None);
}

#[test]
fn degenerate_fov_or_aspect_is_not_drawn() {
    let win = square_window();
    let mut cam = unit_camera_at_origin();
    cam.inv_tan_half_fov = fx(0);
    assert_eq!(transform(fx(0), fx(0), fx(10), CoordMode::WorldProjectedA, Some(cam), &win), None);
    let mut cam2 = unit_camera_at_origin();
    cam2.aspect_ratio = fx(-1);
    assert_eq!(transform(fx(0), fx(0), fx(10), CoordMode::WorldProjectedB, Some(cam2), &win), None);
}

#[test]
fn native_screen_scales_by_physical_over_logical() {
    // Physical is exactly twice the logical resolution, so native-screen
    // coordinates double.
    let win = WindowState {
        physical_width: 3840,
        physical_height: 2160,
        logical_width: 1920,
        logical_height: 1080,
    };
    let r = transform(fx(10), fx(20), fx(0), CoordMode::NativeScreenA, None, &win);
    let (sx, sy) = r.unwrap();
    assert_eq!(sx.raw, 20 * FIX_SCALE);
    assert_eq!(sy.raw, 40 * FIX_SCALE);
}

#[test]
fn native_screen_doubling_inputs_doubles_outputs() {
    let win = WindowState {
        physical_width: 3840,
        physical_height: 2160,
        logical_width: 1920,
        logical_height: 1080,
    };
    let (ax, ay) = transform(fx(10), fx(20), fx(0), CoordMode::NativeScreenB, None, &win).unwrap();
    let (bx, by) = transform(fx(20), fx(40), fx(0), CoordMode::NativeScreenB, None, &win).unwrap();
    assert_eq!(bx.raw, 2 * ax.raw);
    assert_eq!(by.raw, 2 * ay.raw);
}

#[test]
fn native_screen_zero_logical_resolution_is_not_drawn() {
    let win = WindowState {
        physical_width: 1920,
        physical_height: 1080,
        logical_width: 0,
        logical_height: 1080,
    };
    assert_eq!(transform(fx(10), fx(20), fx(0), CoordMode::NativeScreenA, None, &win), None);
}

#[test]
fn normalized_4k_corner_maps_to_logical_corner() {
    // For an arbitrary logical resolution, the 4K reference corner maps to
    // exactly the logical corner.
    let win = WindowState {
        physical_width: 640,
        physical_height: 480,
        logical_width: 1234,
        logical_height: 777,
    };
    let r = transform(fx(3840), fx(2160), fx(0), CoordMode::Normalized4K, None, &win);
    let (sx, sy) = r.unwrap();
    assert_eq!(sx.raw, 1234 * FIX_SCALE);
    assert_eq!(sy.raw, 777 * FIX_SCALE);
}

#[test]
fn normalized_1080p_scales_to_logical() {
    let win = WindowState {
        physical_width: 640,
        physical_height: 480,
        logical_width: 960,
        logical_height: 540,
    };
    let r = transform(fx(1920), fx(1080), fx(0), CoordMode::Normalized1080p, None, &win);
    let (sx, sy) = r.unwrap();
    assert_eq!(sx.raw, 960 * FIX_SCALE);
    assert_eq!(sy.raw, 540 * FIX_SCALE);
}

#[test]
fn overflowing_scale_is_not_drawn() {
    // A coordinate near the representable limit overflows the checked
    // scaling and resolves to "do not draw" instead of wrapping.
    let win = WindowState {
        physical_width: 3840,
        physical_height: 2160,
        logical_width: 1,
        logical_height: 1,
    };
    let huge = Fix { raw: i64::MAX };
    assert_eq!(transform(huge, huge, fx(0), CoordMode::NativeScreenA, None, &win), None);
}

#[test]
fn logical_resolution_follows_window_mode() {
    let mut cfg = WindowConfig {
        mode: WindowMode::Windowed,
        windowed_width: 1280,
        windowed_height: 720,
        fullscreen_width: 2560,
        fullscreen_height: 1440,
        borderless_width: 1920,
        borderless_height: 1080,
    };
    assert_eq!(logical_resolution(&cfg), (1280, 720));
    cfg.mode = WindowMode::Fullscreen;
    assert_eq!(logical_resolution(&cfg), (2560, 1440));
    cfg.mode = WindowMode::Borderless;
    assert_eq!(logical_resolution(&cfg), (1920, 1080));
}

#[test]
fn window_state_falls_back_to_default() {
    let w = WindowState::from_host(None, None);
    assert_eq!(w.physical_width, 1920);
    assert_eq!(w.physical_height, 1080);
    assert_eq!(w.logical_width, 1920);
    assert_eq!(w.logical_height, 1080);
}

#[test]
fn fixed_point_arithmetic_is_checked() {
    let max = Fix { raw: i64::MAX };
    assert_eq!(max.plus(Fix { raw: 1 }), None);
    assert_eq!(Fix { raw: i64::MIN }.minus(Fix { raw: 1 }), None);
    let six = fx(2).times(fx(3)).unwrap();
    assert_eq!(six.raw, 6 * FIX_SCALE);
    let third = fx(1).div_by(fx(3)).unwrap();
    assert_eq!(third.raw, FIX_SCALE / 3);
    assert_eq!(fx(1).div_by(fx(0)), None);
}

#[test]
fn truncation_clamps_to_u32() {
    assert_eq!(fx(-5).trunc_clamp_u32(), 0);
    assert_eq!(Fix { raw: i64::MAX }.trunc_clamp_u32(), u32::MAX);
    assert_eq!(fx(7).trunc_clamp_u32(), 7);
}
