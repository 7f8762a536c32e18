//! The coordinate-transform engine.
//!
//! Maps a draw request's source coordinates, given in one of four coordinate
//! conventions, to final overlay pixel coordinates.  A result of `None` means
//! "do not draw this frame": the point is behind the camera, a parameter is
//! degenerate (non-positive projection scale, zero logical resolution), or a
//! step of the checked arithmetic left the representable range.

use crate::fix::{
    as_fix, fits_raw, oadd, odiv, omul, oratio, osub, oval, tdiv, Fix, FIX_SCALE,
};
use vstd::prelude::*;

verus! {

/// A three-component fixed-point vector.
#[derive(Clone, Copy, PartialEq, Eq, Structural, Debug)]
pub struct Vec3 {
    pub x: Fix,
    pub y: Fix,
    pub z: Fix,
}

/// Component-wise checked subtraction of vectors.
pub open spec fn vec_sub_spec(a: Vec3, b: Vec3) -> Option<Vec3> {
    match (osub(oval(a.x), oval(b.x)), osub(oval(a.y), oval(b.y)), osub(oval(a.z), oval(b.z))) {
        (Some(x), Some(y), Some(z)) => Some(
            Vec3 { x: Fix { raw: x as i64 }, y: Fix { raw: y as i64 }, z: Fix { raw: z as i64 } },
        ),
        _ => None,
    }
}

/// Checked fixed-point dot product, left to right.
pub open spec fn dot_spec(a: Vec3, b: Vec3) -> Option<int> {
    oadd(
        oadd(omul(oval(a.x), oval(b.x)), omul(oval(a.y), oval(b.y))),
        omul(oval(a.z), oval(b.z)),
    )
}

impl Vec3 {
    /// Builds a vector from components.
    pub fn new(x: Fix, y: Fix, z: Fix) -> (r: Vec3)
        ensures
            r == (Vec3 { x, y, z }),
    {
        Vec3 { x, y, z }
    }

    /// Component-wise checked subtraction.
    pub fn minus(self, o: Vec3) -> (r: Option<Vec3>)
        ensures
            r == vec_sub_spec(self, o),
    {
        let x = match self.x.minus(o.x) {
            Some(v) => v,
            None => {
                return None;
            },
        };
        let y = match self.y.minus(o.y) {
            Some(v) => v,
            None => {
                return None;
            },
        };
        let z = match self.z.minus(o.z) {
            Some(v) => v,
            None => {
                return None;
            },
        };
        Some(Vec3 { x, y, z })
    }

    /// Checked fixed-point dot product.
    pub fn dot(self, o: Vec3) -> (r: Option<Fix>)
        ensures
            r == as_fix(dot_spec(self, o)),
    {
        let m1 = match self.x.times(o.x) {
            Some(v) => v,
            None => {
                return None;
            },
        };
        let m2 = match self.y.times(o.y) {
            Some(v) => v,
            None => {
                return None;
            },
        };
        let m3 = match self.z.times(o.z) {
            Some(v) => v,
            None => {
                return None;
            },
        };
        let s = match m1.plus(m2) {
            Some(v) => v,
            None => {
                return None;
            },
        };
        s.plus(m3)
    }
}

/// Read-only snapshot of the host camera, valid for one transform call.
///
/// The basis vectors are the host's right, up and forward directions; the
/// projection is described by `inv_tan_half_fov`, the cotangent of half the
/// vertical field of view (the perspective matrix entry `m11`), and the
/// width-over-height `aspect_ratio`.  Both must be positive for a projection
/// to be drawn.
#[derive(Clone, Copy, PartialEq, Eq, Structural, Debug)]
pub struct CameraState {
    pub position: Vec3,
    pub right: Vec3,
    pub up: Vec3,
    pub forward: Vec3,
    pub inv_tan_half_fov: Fix,
    pub aspect_ratio: Fix,
}

/// Read-only snapshot of the render target: the physical size in pixels and
/// the user-configured logical resolution of the active display mode.
#[derive(Clone, Copy, PartialEq, Eq, Structural, Debug)]
pub struct WindowState {
    pub physical_width: u32,
    pub physical_height: u32,
    pub logical_width: u32,
    pub logical_height: u32,
}

/// Width of the default render target assumed when host state is unavailable.
pub const DEFAULT_WIDTH: u32 = 1920;

/// Height of the default render target assumed when host state is unavailable.
pub const DEFAULT_HEIGHT: u32 = 1080;

/// The display mode the host window is configured for.
#[derive(Clone, Copy, PartialEq, Eq, Structural, Debug)]
pub enum WindowMode {
    Windowed,
    Fullscreen,
    Borderless,
}

/// The host's persistent window configuration: one logical resolution per
/// display mode, and the mode in effect.
#[derive(Clone, Copy, PartialEq, Eq, Structural, Debug)]
pub struct WindowConfig {
    pub mode: WindowMode,
    pub windowed_width: u32,
    pub windowed_height: u32,
    pub fullscreen_width: u32,
    pub fullscreen_height: u32,
    pub borderless_width: u32,
    pub borderless_height: u32,
}

/// The logical resolution selected by the active display mode.
pub open spec fn logical_resolution_spec(c: WindowConfig) -> (int, int) {
    match c.mode {
        WindowMode::Windowed => (c.windowed_width as int, c.windowed_height as int),
        WindowMode::Fullscreen => (c.fullscreen_width as int, c.fullscreen_height as int),
        WindowMode::Borderless => (c.borderless_width as int, c.borderless_height as int),
    }
}

/// Picks the logical resolution for the active display mode.
pub fn logical_resolution(c: &WindowConfig) -> (r: (u32, u32))
    ensures
        (r.0 as int, r.1 as int) == logical_resolution_spec(*c),
{
    match c.mode {
        WindowMode::Windowed => (c.windowed_width, c.windowed_height),
        WindowMode::Fullscreen => (c.fullscreen_width, c.fullscreen_height),
        WindowMode::Borderless => (c.borderless_width, c.borderless_height),
    }
}

impl WindowState {
    /// Assembles a window snapshot from what could be read of the host
    /// state, falling back to the default size wherever a part was
    /// unavailable.
    pub fn from_host(physical: Option<(u32, u32)>, config: Option<WindowConfig>) -> (r:
        WindowState)
        ensures
            match physical {
                Some(p) => r.physical_width == p.0 && r.physical_height == p.1,
                None => r.physical_width == DEFAULT_WIDTH && r.physical_height == DEFAULT_HEIGHT,
            },
            match config {
                Some(c) => (r.logical_width as int, r.logical_height as int)
                    == logical_resolution_spec(c),
                None => r.logical_width == DEFAULT_WIDTH && r.logical_height == DEFAULT_HEIGHT,
            },
    {
        let (pw, ph) = match physical {
            Some(p) => p,
            None => (DEFAULT_WIDTH, DEFAULT_HEIGHT),
        };
        let (lw, lh) = match config {
            Some(c) => logical_resolution(&c),
            None => (DEFAULT_WIDTH, DEFAULT_HEIGHT),
        };
        WindowState {
            physical_width: pw,
            physical_height: ph,
            logical_width: lw,
            logical_height: lh,
        }
    }
}

/// The coordinate convention a draw request's position is given in.  The two
/// world-projected kinds behave identically, as do the two native-screen
/// kinds; the host distinguishes them at its call sites.
#[derive(Clone, Copy, PartialEq, Eq, Structural, Debug)]
pub enum CoordMode {
    WorldProjectedA,
    WorldProjectedB,
    NativeScreenA,
    NativeScreenB,
    Normalized4K,
    Normalized1080p,
}

/// Raw value of one half in fixed point.
pub const HALF_RAW: i64 = 32768;

/// The camera-space depth of a world point: the forward component of the
/// point relative to the camera position, when representable.
pub open spec fn cam_depth(x: Fix, y: Fix, z: Fix, cam: CameraState) -> Option<int> {
    match vec_sub_spec(Vec3 { x, y, z }, cam.position) {
        Some(rel) => dot_spec(cam.forward, rel),
        None => None,
    }
}

/// World-space projection: relative position is projected onto the camera
/// basis, scaled by a symmetric perspective projection, and mapped to the
/// physical render-target pixels with the vertical axis flipped.
pub open spec fn world_projected_spec(
    x: Fix,
    y: Fix,
    z: Fix,
    cam: CameraState,
    win: WindowState,
) -> Option<(Fix, Fix)> {
    if cam.inv_tan_half_fov.raw <= 0 || cam.aspect_ratio.raw <= 0 {
        None
    } else {
        match vec_sub_spec(Vec3 { x, y, z }, cam.position) {
            None => None,
            Some(rel) => match dot_spec(cam.forward, rel) {
                None => None,
                Some(zc) => if zc <= 0 {
                    None
                } else {
                    let xc = dot_spec(cam.right, rel);
                    let yc = dot_spec(cam.up, rel);
                    let m11 = oval(cam.inv_tan_half_fov);
                    let m00 = odiv(m11, oval(cam.aspect_ratio));
                    let ndc_x = odiv(omul(xc, m00), Some(zc));
                    let ndc_y = odiv(omul(yc, m11), Some(zc));
                    let sx = omul(
                        oadd(omul(ndc_x, Some(HALF_RAW as int)), Some(HALF_RAW as int)),
                        Some(win.physical_width * FIX_SCALE),
                    );
                    let sy = omul(
                        oadd(omul(ndc_y, Some(-HALF_RAW as int)), Some(HALF_RAW as int)),
                        Some(win.physical_height * FIX_SCALE),
                    );
                    match (sx, sy) {
                        (Some(a), Some(b)) => Some(
                            (Fix { raw: a as i64 }, Fix { raw: b as i64 }),
                        ),
                        _ => None,
                    }
                },
            },
        }
    }
}

/// Native-screen scaling: coordinates in the host's logical-resolution pixel
/// space are rescaled to the physical render target.
pub open spec fn native_screen_spec(x: Fix, y: Fix, win: WindowState) -> Option<(Fix, Fix)> {
    if win.logical_width == 0 || win.logical_height == 0 {
        None
    } else {
        match (
            oratio(oval(x), win.physical_width as int, win.logical_width as int),
            oratio(oval(y), win.physical_height as int, win.logical_height as int),
        ) {
            (Some(a), Some(b)) => Some((Fix { raw: a as i64 }, Fix { raw: b as i64 })),
            _ => None,
        }
    }
}

/// Reference-canvas scaling: coordinates authored against a fixed reference
/// canvas are rescaled to the logical resolution.
pub open spec fn normalized_spec(
    x: Fix,
    y: Fix,
    ref_w: int,
    ref_h: int,
    win: WindowState,
) -> Option<(Fix, Fix)>
    recommends
        ref_w > 0,
        ref_h > 0,
{
    match (
        oratio(oval(x), win.logical_width as int, ref_w),
        oratio(oval(y), win.logical_height as int, ref_h),
    ) {
        (Some(a), Some(b)) => Some((Fix { raw: a as i64 }, Fix { raw: b as i64 })),
        _ => None,
    }
}

/// What the transform engine yields for a draw request: `None` is "do not
/// draw"; the world-projected modes need a camera snapshot and yield `None`
/// without one.
pub open spec fn transform_spec(
    x: Fix,
    y: Fix,
    z: Fix,
    mode: CoordMode,
    cam: Option<CameraState>,
    win: WindowState,
) -> Option<(Fix, Fix)> {
    match mode {
        CoordMode::WorldProjectedA | CoordMode::WorldProjectedB => match cam {
            Some(c) => world_projected_spec(x, y, z, c, win),
            None => None,
        },
        CoordMode::NativeScreenA | CoordMode::NativeScreenB => native_screen_spec(x, y, win),
        CoordMode::Normalized4K => normalized_spec(x, y, REF_4K_WIDTH as int, REF_4K_HEIGHT as int, win),
        CoordMode::Normalized1080p => normalized_spec(
            x,
            y,
            REF_1080P_WIDTH as int,
            REF_1080P_HEIGHT as int,
            win,
        ),
    }
}

/// Width of the 4K reference canvas.
pub const REF_4K_WIDTH: u32 = 3840;

/// Height of the 4K reference canvas.
pub const REF_4K_HEIGHT: u32 = 2160;

/// Width of the 1080p reference canvas.
pub const REF_1080P_WIDTH: u32 = 1920;

/// Height of the 1080p reference canvas.
pub const REF_1080P_HEIGHT: u32 = 1080;

/// Projects a world point through the camera onto the physical render
/// target.
pub fn world_projected(x: Fix, y: Fix, z: Fix, cam: &CameraState, win: &WindowState) -> (r: Option<
    (Fix, Fix),
>)
    ensures
        r == world_projected_spec(x, y, z, *cam, *win),
{
    if cam.inv_tan_half_fov.raw <= 0 || cam.aspect_ratio.raw <= 0 {
        return None;
    }
    let rel = match Vec3::new(x, y, z).minus(cam.position) {
        Some(v) => v,
        None => {
            return None;
        },
    };
    let z_cam = match cam.forward.dot(rel) {
        Some(v) => v,
        None => {
            return None;
        },
    };
    if z_cam.raw <= 0 {
        return None;
    }
    let x_cam = match cam.right.dot(rel) {
        Some(v) => v,
        None => {
            return None;
        },
    };
    let y_cam = match cam.up.dot(rel) {
        Some(v) => v,
        None => {
            return None;
        },
    };
    let m11 = cam.inv_tan_half_fov;
    let m00 = match m11.div_by(cam.aspect_ratio) {
        Some(v) => v,
        None => {
            return None;
        },
    };
    let tx = match x_cam.times(m00) {
        Some(v) => v,
        None => {
            return None;
        },
    };
    let ndc_x = match tx.div_by(z_cam) {
        Some(v) => v,
        None => {
            return None;
        },
    };
    let ty = match y_cam.times(m11) {
        Some(v) => v,
        None => {
            return None;
        },
    };
    let ndc_y = match ty.div_by(z_cam) {
        Some(v) => v,
        None => {
            return None;
        },
    };
    let half = Fix { raw: HALF_RAW };
    let neg_half = Fix { raw: -HALF_RAW };
    let w = Fix::from_u32(win.physical_width);
    let h = Fix::from_u32(win.physical_height);
    let hx = match ndc_x.times(half) {
        Some(v) => v,
        None => {
            return None;
        },
    };
    let cx = match hx.plus(half) {
        Some(v) => v,
        None => {
            return None;
        },
    };
    let sx = match cx.times(w) {
        Some(v) => v,
        None => {
            return None;
        },
    };
    let hy = match ndc_y.times(neg_half) {
        Some(v) => v,
        None => {
            return None;
        },
    };
    let cy = match hy.plus(half) {
        Some(v) => v,
        None => {
            return None;
        },
    };
    let sy = match cy.times(h) {
        Some(v) => v,
        None => {
            return None;
        },
    };
    Some((sx, sy))
}

/// Rescales native-screen coordinates to the physical render target.
pub fn native_screen(x: Fix, y: Fix, win: &WindowState) -> (r: Option<(Fix, Fix)>)
    ensures
        r == native_screen_spec(x, y, *win),
{
    if win.logical_width == 0 || win.logical_height == 0 {
        return None;
    }
    let a = match x.scale_ratio(win.physical_width, win.logical_width) {
        Some(v) => v,
        None => {
            return None;
        },
    };
    let b = match y.scale_ratio(win.physical_height, win.logical_height) {
        Some(v) => v,
        None => {
            return None;
        },
    };
    Some((a, b))
}

/// Rescales reference-canvas coordinates to the logical resolution.
pub fn normalized(x: Fix, y: Fix, ref_w: u32, ref_h: u32, win: &WindowState) -> (r: Option<
    (Fix, Fix),
>)
    requires
        ref_w > 0,
        ref_h > 0,
    ensures
        r == normalized_spec(x, y, ref_w as int, ref_h as int, *win),
{
    let a = match x.scale_ratio(win.logical_width, ref_w) {
        Some(v) => v,
        None => {
            return None;
        },
    };
    let b = match y.scale_ratio(win.logical_height, ref_h) {
        Some(v) => v,
        None => {
            return None;
        },
    };
    Some((a, b))
}

/// Resolves a draw request's coordinates under its coordinate mode.
pub fn transform(
    x: Fix,
    y: Fix,
    z: Fix,
    mode: CoordMode,
    cam: Option<CameraState>,
    win: &WindowState,
) -> (r: Option<(Fix, Fix)>)
    ensures
        r == transform_spec(x, y, z, mode, cam, *win),
{
    match mode {
        CoordMode::WorldProjectedA | CoordMode::WorldProjectedB => match cam {
            Some(c) => world_projected(x, y, z, &c, win),
            None => None,
        },
        CoordMode::NativeScreenA | CoordMode::NativeScreenB => native_screen(x, y, win),
        CoordMode::Normalized4K => normalized(x, y, REF_4K_WIDTH, REF_4K_HEIGHT, win),
        CoordMode::Normalized1080p => normalized(x, y, REF_1080P_WIDTH, REF_1080P_HEIGHT, win),
    }
}

/// The transform is a pure function of its inputs: two calls on equal
/// arguments resolve to the same screen position, or both to "do not draw".
pub proof fn lemma_transform_deterministic(
    x1: Fix,
    y1: Fix,
    z1: Fix,
    mode1: CoordMode,
    cam1: Option<CameraState>,
    win1: WindowState,
    x2: Fix,
    y2: Fix,
    z2: Fix,
    mode2: CoordMode,
    cam2: Option<CameraState>,
    win2: WindowState,
)
    requires
        x1 == x2,
        y1 == y2,
        z1 == z2,
        mode1 == mode2,
        cam1 == cam2,
        win1 == win2,
    ensures
        transform_spec(x1, y1, z1, mode1, cam1, win1) == transform_spec(
            x2,
            y2,
            z2,
            mode2,
            cam2,
            win2,
        ),
{
}

/// A point at or behind the camera plane is never drawn: whenever the
/// camera-space depth is not defined and positive, the world projection
/// yields no screen position.
pub proof fn lemma_behind_camera_no_draw(x: Fix, y: Fix, z: Fix, cam: CameraState, win: WindowState)
    requires
        cam_depth(x, y, z, cam) matches Some(d) ==> d <= 0,
    ensures
        world_projected_spec(x, y, z, cam, win) is None,
{
}

/// Native-screen scaling is homogeneous: doubling both input coordinates
/// doubles each output coordinate, whenever the per-axis scaling divisions
/// are exact and the doubled results are representable.
pub proof fn lemma_native_screen_scale_invariant(
    x: Fix,
    y: Fix,
    x2: Fix,
    y2: Fix,
    win: WindowState,
)
    requires
        win.logical_width > 0,
        win.logical_height > 0,
        x2.raw == 2 * x.raw,
        y2.raw == 2 * y.raw,
        (x.raw * win.physical_width) % (win.logical_width as int) == 0,
        (y.raw * win.physical_height) % (win.logical_height as int) == 0,
        fits_raw(2 * tdiv(x.raw * win.physical_width, win.logical_width as int)),
        fits_raw(2 * tdiv(y.raw * win.physical_height, win.logical_height as int)),
    ensures
        ({
            let p = native_screen_spec(x, y, win);
            let q = native_screen_spec(x2, y2, win);
            &&& p matches Some(pp) && q matches Some(qq) && qq.0.raw == 2 * pp.0.raw
                && qq.1.raw == 2 * pp.1.raw
        }),
{
    lemma_axis_exact_doubling(x.raw as int, win.physical_width as int, win.logical_width as int);
    lemma_axis_exact_doubling(y.raw as int, win.physical_height as int, win.logical_height as int);
}

/// One axis of the exact-scaling argument: when `a * p` divides evenly by
/// `l`, scaling the doubled coordinate gives exactly twice the scaled
/// coordinate.
proof fn lemma_axis_exact_doubling(a: int, p: int, l: int)
    requires
        l > 0,
        (a * p) % l == 0,
    ensures
        tdiv(2 * a * p, l) == 2 * tdiv(a * p, l),
{
    let ap = a * p;
    crate::fix::lemma_tdiv_exact(ap, l);
    let k = ap / l;
    assert(tdiv(ap, l) == k);
    assert(ap == k * l);
    assert(2 * a * p == (2 * k) * l) by (nonlinear_arith)
        requires
            a * p == k * l,
    ;
    vstd::arithmetic::div_mod::lemma_mod_multiples_basic(2 * k, l);
    assert((2 * a * p) % l == 0);
    crate::fix::lemma_tdiv_exact(2 * a * p, l);
    vstd::arithmetic::div_mod::lemma_div_multiples_vanish(2 * k, l);
    assert(l * (2 * k) == (2 * k) * l) by (nonlinear_arith);
    assert((2 * a * p) / l == 2 * k);
}

/// The reference-canvas corner maps to the full logical-resolution corner:
/// the 4K-normalized transform sends (3840, 2160) exactly to
/// (logical_width, logical_height), for every window state.
pub proof fn lemma_normalized_4k_corner(win: WindowState)
    ensures
        ({
            let cx = Fix { raw: (REF_4K_WIDTH * FIX_SCALE) as i64 };
            let cy = Fix { raw: (REF_4K_HEIGHT * FIX_SCALE) as i64 };
            normalized_spec(cx, cy, REF_4K_WIDTH as int, REF_4K_HEIGHT as int, win) == Some(
                (
                    Fix { raw: (win.logical_width * FIX_SCALE) as i64 },
                    Fix { raw: (win.logical_height * FIX_SCALE) as i64 },
                ),
            )
        }),
{
    lemma_corner_axis(win.logical_width as int, REF_4K_WIDTH as int);
    lemma_corner_axis(win.logical_height as int, REF_4K_HEIGHT as int);
}

/// One axis of the corner argument: scaling the reference width itself by
/// `logical / reference` is exact and yields the logical extent.
proof fn lemma_corner_axis(logical: int, reference: int)
    requires
        reference > 0,
        0 <= logical <= u32::MAX,
    ensures
        tdiv(reference * FIX_SCALE * logical, reference) == FIX_SCALE * logical,
        fits_raw(FIX_SCALE * logical),
{
    let s = FIX_SCALE as int;
    assert(reference * s * logical == (s * logical) * reference) by (nonlinear_arith);
    vstd::arithmetic::div_mod::lemma_mod_multiples_basic(s * logical, reference);
    crate::fix::lemma_tdiv_exact(reference * s * logical, reference);
    vstd::arithmetic::div_mod::lemma_div_multiples_vanish(s * logical, reference);
    assert(reference * (s * logical) == (s * logical) * reference) by (nonlinear_arith);
    assert(s * logical <= s * 0xFFFF_FFFF) by (nonlinear_arith)
        requires
            logical <= 0xFFFF_FFFF,
            s == 65536,
    ;
    assert(s * logical >= 0) by (nonlinear_arith)
        requires
            logical >= 0,
            s == 65536,
    ;
}

} // verus!
