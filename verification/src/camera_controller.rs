//! Input-driven camera movement: velocity flags set by key events and a
//! fixed per-frame displacement applied to the camera.
//!
//! Movement follows the camera's own frame: the forward step runs along
//! `target - eye` and is guarded so the eye never overshoots the target;
//! the strafe step runs along `cross(forward, up)`, recomputed after any
//! forward or backward adjustment.  All arithmetic is fixed-point, and each
//! step is the configured speed scaled onto the relevant direction.

use vstd::prelude::*;
use vstd::arithmetic::div_mod::lemma_div_is_ordered;
use vstd::arithmetic::div_mod::lemma_div_multiples_vanish;
use vstd::arithmetic::div_mod::lemma_fundamental_div_mod;
use vstd::arithmetic::div_mod::lemma_mod_bound;
use crate::camera::dot3;
use crate::camera::lemma_isqrt_bounds;
use crate::camera::Camera;
use crate::camera::Vec3I;
use crate::camera::add3;
use crate::camera::cross3;
use crate::camera::norm2;
use crate::camera::spec_isqrt;
use crate::camera::sub3;
use crate::camera::isqrt;

verus! {

/// The keys the controller recognizes.
#[derive(Clone, Copy, PartialEq, Eq, Structural, Debug)]
pub enum Key {
    KeyW,
    KeyA,
    KeyS,
    KeyD,
    ArrowUp,
    ArrowDown,
    ArrowLeft,
    ArrowRight,
    Space,
    ShiftLeft,
}

/// Whether a key went down or up.
#[derive(Clone, Copy, PartialEq, Eq, Structural, Debug)]
pub enum ElementState {
    Pressed,
    Released,
}

/// A window event, reduced to the plain values the controller inspects.
/// Everything the controller does not recognize arrives as `Other`.
#[derive(Clone, Copy, PartialEq, Eq, Structural, Debug)]
pub enum InputEvent {
    Keyboard { key: Key, state: ElementState },
    Other,
}

/// Velocity flags set by input events, and the fixed-point speed one frame
/// step applies.
#[derive(Clone, Copy, PartialEq, Eq, Structural, Debug)]
pub struct CameraController {
    pub speed: i64,
    pub is_forward_pressed: bool,
    pub is_backward_pressed: bool,
    pub is_left_pressed: bool,
    pub is_right_pressed: bool,
    pub is_up_pressed: bool,
    pub is_down_pressed: bool,
}

/// The flag state after one event: a recognized key press or release moves
/// exactly one flag; anything else changes nothing.
pub open spec fn spec_process(c: CameraController, ev: InputEvent) -> CameraController {
    match ev {
        InputEvent::Keyboard { key, state } => {
            let pressed = state is Pressed;
            match key {
                Key::KeyW => (CameraController { is_forward_pressed: pressed, ..c }),
                Key::ArrowUp => (CameraController { is_forward_pressed: pressed, ..c }),
                Key::KeyS => (CameraController { is_backward_pressed: pressed, ..c }),
                Key::ArrowDown => (CameraController { is_backward_pressed: pressed, ..c }),
                Key::KeyA => (CameraController { is_left_pressed: pressed, ..c }),
                Key::ArrowLeft => (CameraController { is_left_pressed: pressed, ..c }),
                Key::KeyD => (CameraController { is_right_pressed: pressed, ..c }),
                Key::ArrowRight => (CameraController { is_right_pressed: pressed, ..c }),
                Key::Space => (CameraController { is_up_pressed: pressed, ..c }),
                Key::ShiftLeft => (CameraController { is_down_pressed: pressed, ..c }),
            }
        },
        InputEvent::Other => c,
    }
}

/// `|a| * s / m`, truncated, with the sign of `a` reapplied: one component
/// of a fixed-point scaling of a vector onto length `s`.
pub open spec fn scale_toward(a: int, s: int, m: int) -> int
    recommends
        0 < m,
        0 <= s,
{
    if a >= 0 {
        (a * s) / m
    } else {
        -(((-a) * s) / m)
    }
}

pub open spec fn scaled3(v: (int, int, int), s: int, m: int) -> (int, int, int) {
    (scale_toward(v.0, s, m), scale_toward(v.1, s, m), scale_toward(v.2, s, m))
}

/// One fixed-point scaling step.
fn scale_component(a: i128, s: i64, m: u64) -> (r: i64)
    requires
        0 < m,
        0 <= s,
        -(m as int) <= a <= m as int,
    ensures
        r == scale_toward(a as int, s as int, m as int),
        -s <= r <= s,
{
    proof {
        assert((m as int) * (s as int) < 0x1_0000_0000_0000_0000_0000_0000_0000_0000)
            by (nonlinear_arith)
            requires
                0 < m <= 0xFFFF_FFFF_FFFF_FFFFu64,
                0 <= s <= 0x7FFF_FFFF_FFFF_FFFFi64,
        ;
        lemma_div_multiples_vanish(s as int, m as int);
        lemma_div_multiples_vanish(0, m as int);
    }
    if a >= 0 {
        proof {
            assert(0 <= a * (s as int) <= (m as int) * (s as int)) by (nonlinear_arith)
                requires
                    0 <= a <= m as int,
                    0 <= s,
            ;
            lemma_div_is_ordered(a * (s as int), (m as int) * (s as int), m as int);
            lemma_div_is_ordered(0, a * (s as int), m as int);
        }
        let q: u128 = (a as u128) * (s as u128) / (m as u128);
        q as i64
    } else {
        let na: i128 = -a;
        proof {
            assert(0 <= na * (s as int) <= (m as int) * (s as int)) by (nonlinear_arith)
                requires
                    0 <= na <= m as int,
                    0 <= s,
            ;
            lemma_div_is_ordered(na * (s as int), (m as int) * (s as int), m as int);
            lemma_div_is_ordered(0, na * (s as int), m as int);
        }
        let q: u128 = (na as u128) * (s as u128) / (m as u128);
        -(q as i64)
    }
}

impl CameraController {
    /// Speeds the step arithmetic is proved overflow-free and productive
    /// for.
    pub open spec fn wf(self) -> bool {
        2 <= self.speed <= 0x10_0000
    }

    pub fn new(speed: i64) -> (r: CameraController)
        requires
            2 <= speed <= 0x10_0000,
        ensures
            r == (CameraController {
                speed,
                is_forward_pressed: false,
                is_backward_pressed: false,
                is_left_pressed: false,
                is_right_pressed: false,
                is_up_pressed: false,
                is_down_pressed: false,
            }),
    {
        CameraController {
            speed,
            is_forward_pressed: false,
            is_backward_pressed: false,
            is_left_pressed: false,
            is_right_pressed: false,
            is_up_pressed: false,
            is_down_pressed: false,
        }
    }

    /// Record one window event.  Returns whether the event was consumed,
    /// which is exactly when it carried a recognized key.
    pub fn process_events(&mut self, event: &InputEvent) -> (consumed: bool)
        ensures
            *final(self) == spec_process(*old(self), *event),
            consumed == (*event is Keyboard),
    {
        match *event {
            InputEvent::Keyboard { key, state } => {
                let pressed = matches!(state, ElementState::Pressed);
                match key {
                    Key::KeyW => self.is_forward_pressed = pressed,
                    Key::ArrowUp => self.is_forward_pressed = pressed,
                    Key::KeyS => self.is_backward_pressed = pressed,
                    Key::ArrowDown => self.is_backward_pressed = pressed,
                    Key::KeyA => self.is_left_pressed = pressed,
                    Key::ArrowLeft => self.is_left_pressed = pressed,
                    Key::KeyD => self.is_right_pressed = pressed,
                    Key::ArrowRight => self.is_right_pressed = pressed,
                    Key::Space => self.is_up_pressed = pressed,
                    Key::ShiftLeft => self.is_down_pressed = pressed,
                }
                true
            },
            InputEvent::Other => false,
        }
    }

    /// Where one camera step puts the eye.  The forward step applies only
    /// while the target is farther than one step away, so the eye never
    /// overshoots it; the strafe direction is recomputed after the forward
    /// and backward adjustments.  A camera sitting on its target has no
    /// forward direction and does not move; one whose forward direction is
    /// parallel to `up` has no strafe direction.
    pub open spec fn spec_updated_eye(self, cam: Camera) -> (int, int, int) {
        let s = self.speed as int;
        let eye0 = cam.eye.s();
        let f = sub3(cam.target.s(), eye0);
        let m = spec_isqrt(norm2(f) as nat) as int;
        let step = scaled3(f, s, m);
        let e1 = if self.is_forward_pressed && m > s {
            add3(eye0, step)
        } else {
            eye0
        };
        let e2 = if self.is_backward_pressed && m > 0 {
            sub3(e1, step)
        } else {
            e1
        };
        let f2 = sub3(cam.target.s(), e2);
        let c = cross3(f2, cam.up.s());
        let cm = spec_isqrt(norm2(c) as nat) as int;
        let strafe = scaled3(c, s, cm);
        let e3 = if self.is_right_pressed && cm > 0 {
            add3(e2, strafe)
        } else {
            e2
        };
        if self.is_left_pressed && cm > 0 {
            sub3(e3, strafe)
        } else {
            e3
        }
    }

    /// Advance the camera by one frame step.
    #[verifier::rlimit(100)]
    #[verifier::spinoff_prover]
    pub fn update_camera(&self, camera: &mut Camera)
        requires
            old(camera).in_bounds(),
            self.wf(),
        ensures
            final(camera).eye.s() == self.spec_updated_eye(*old(camera)),
            final(camera).target == old(camera).target,
            final(camera).up == old(camera).up,
            final(camera).aspect_width == old(camera).aspect_width,
            final(camera).aspect_height == old(camera).aspect_height,
            final(camera).fovy_mdeg == old(camera).fovy_mdeg,
            final(camera).znear == old(camera).znear,
            final(camera).zfar == old(camera).zfar,
            -2 * self.speed <= final(camera).eye.x - old(camera).eye.x <= 2 * self.speed,
            -2 * self.speed <= final(camera).eye.y - old(camera).eye.y <= 2 * self.speed,
            -2 * self.speed <= final(camera).eye.z - old(camera).eye.z <= 2 * self.speed,
    {
        let speed = self.speed;
        let fx: i64 = camera.target.x - camera.eye.x;
        let fy: i64 = camera.target.y - camera.eye.y;
        let fz: i64 = camera.target.z - camera.eye.z;
        let fx1: i128 = fx as i128;
        let fy1: i128 = fy as i128;
        let fz1: i128 = fz as i128;
        proof {
            assert(fx1 * fx1 + fy1 * fy1 + fz1 * fz1 <= 3 * 0x4000_0000_0000_0000i128)
                by (nonlinear_arith)
                requires
                    -0x8000_0000i128 <= fx1 <= 0x8000_0000i128,
                    -0x8000_0000i128 <= fy1 <= 0x8000_0000i128,
                    -0x8000_0000i128 <= fz1 <= 0x8000_0000i128,
            ;
            assert(fx1 * fx1 >= 0 && fy1 * fy1 >= 0 && fz1 * fz1 >= 0) by (nonlinear_arith);
        }
        let n2: i128 = fx1 * fx1 + fy1 * fy1 + fz1 * fz1;
        let m: u64 = isqrt(n2 as u128);
        let ghost f = sub3(camera.target.s(), camera.eye.s());
        proof {
            assert(norm2(f) == n2 as int);
            assert(m as int == spec_isqrt(norm2(f) as nat));
        }
        let mut ex: i64 = camera.eye.x;
        let mut ey: i64 = camera.eye.y;
        let mut ez: i64 = camera.eye.z;
        if m > 0 {
            proof {
                assert(fx1 <= m as int && -(m as int) <= fx1) by (nonlinear_arith)
                    requires
                        fx1 * fx1 <= n2,
                        n2 < (m as int + 1) * (m as int + 1),
                        0 <= m as int,
                ;
                assert(fy1 <= m as int && -(m as int) <= fy1) by (nonlinear_arith)
                    requires
                        fy1 * fy1 <= n2,
                        n2 < (m as int + 1) * (m as int + 1),
                        0 <= m as int,
                ;
                assert(fz1 <= m as int && -(m as int) <= fz1) by (nonlinear_arith)
                    requires
                        fz1 * fz1 <= n2,
                        n2 < (m as int + 1) * (m as int + 1),
                        0 <= m as int,
                ;
            }
            let dx = scale_component(fx1, speed, m);
            let dy = scale_component(fy1, speed, m);
            let dz = scale_component(fz1, speed, m);
            if self.is_forward_pressed && (speed as u64) < m {
                ex = ex + dx;
                ey = ey + dy;
                ez = ez + dz;
            }
            if self.is_backward_pressed {
                ex = ex - dx;
                ey = ey - dy;
                ez = ez - dz;
            }
        }
        let ghost e2 = (ex as int, ey as int, ez as int);
        let f2x: i64 = camera.target.x - ex;
        let f2y: i64 = camera.target.y - ey;
        let f2z: i64 = camera.target.z - ez;
        let ux: i128 = camera.up.x as i128;
        let uy: i128 = camera.up.y as i128;
        let uz: i128 = camera.up.z as i128;
        proof {
            assert forall|p: i128, q: i128|
                -0x8020_0000i128 <= p <= 0x8020_0000i128 && -0x4000_0000i128 <= q
                    <= 0x4000_0000i128 implies -0x2008_0000_0000_0000i128 <= #[trigger] (p * q)
                <= 0x2008_0000_0000_0000i128 by {
                assert(-0x2008_0000_0000_0000i128 <= p * q <= 0x2008_0000_0000_0000i128)
                    by (nonlinear_arith)
                    requires
                        -0x8020_0000i128 <= p <= 0x8020_0000i128,
                        -0x4000_0000i128 <= q <= 0x4000_0000i128,
                ;
            }
        }
        let cx: i128 = (f2y as i128) * uz - (f2z as i128) * uy;
        let cy: i128 = (f2z as i128) * ux - (f2x as i128) * uz;
        let cz: i128 = (f2x as i128) * uy - (f2y as i128) * ux;
        proof {
            assert forall|p: i128|
                -0x4010_0000_0000_0000i128 <= p <= 0x4010_0000_0000_0000i128 implies 0 <= #[trigger] (
                p * p) <= 0x2000_0000_0000_0000_0000_0000_0000_0000i128 by {
                assert(0 <= p * p <= 0x2000_0000_0000_0000_0000_0000_0000_0000i128)
                    by (nonlinear_arith)
                    requires
                        -0x4010_0000_0000_0000i128 <= p <= 0x4010_0000_0000_0000i128,
                ;
            }
        }
        let c2: i128 = cx * cx + cy * cy + cz * cz;
        let cm: u64 = isqrt(c2 as u128);
        let ghost c = cross3(sub3(camera.target.s(), e2), camera.up.s());
        proof {
            assert(c == (cx as int, cy as int, cz as int));
            assert(norm2(c) == c2 as int);
            assert(cm as int == spec_isqrt(norm2(c) as nat));
        }
        if cm > 0 && (self.is_right_pressed || self.is_left_pressed) {
            proof {
                assert(cx <= cm as int && -(cm as int) <= cx) by (nonlinear_arith)
                    requires
                        cx * cx <= c2,
                        c2 < (cm as int + 1) * (cm as int + 1),
                        0 <= cm as int,
                ;
                assert(cy <= cm as int && -(cm as int) <= cy) by (nonlinear_arith)
                    requires
                        cy * cy <= c2,
                        c2 < (cm as int + 1) * (cm as int + 1),
                        0 <= cm as int,
                ;
                assert(cz <= cm as int && -(cm as int) <= cz) by (nonlinear_arith)
                    requires
                        cz * cz <= c2,
                        c2 < (cm as int + 1) * (cm as int + 1),
                        0 <= cm as int,
                ;
            }
            let sx = scale_component(cx, speed, cm);
            let sy = scale_component(cy, speed, cm);
            let sz = scale_component(cz, speed, cm);
            if self.is_right_pressed {
                ex = ex + sx;
                ey = ey + sy;
                ez = ez + sz;
            }
            if self.is_left_pressed {
                ex = ex - sx;
                ey = ey - sy;
                ez = ez - sz;
            }
        }
        proof {
            assert((ex as int, ey as int, ez as int) == self.spec_updated_eye(*old(camera)));
        }
        camera.eye = Vec3I { x: ex, y: ey, z: ez };
    }
}


/// What one scaled component satisfies: it is squeezed between the exact
/// quotient's floor and ceiling, stays within one speed step, and, for a
/// speed below the direction's length, is dominated by its component and
/// productive as soon as `|a| * s` reaches `m`.
proof fn lemma_scale_component(a: int, s: int, m: int)
    requires
        0 < m,
        0 <= s,
        -m <= a <= m,
    ensures
        ({
            let d = scale_toward(a, s, m);
            &&& -s <= d <= s
            &&& a >= 0 ==> 0 <= d && d * m <= a * s < (d + 1) * m
            &&& a < 0 ==> d <= 0 && d * m >= a * s > (d - 1) * m
            &&& s < m ==> a * d >= d * d
            &&& (s < m && (a * s >= m || a * s <= -m)) ==> d * d >= 1
        }),
{
    lemma_div_multiples_vanish(0, m);
    lemma_div_multiples_vanish(1, m);
    lemma_div_multiples_vanish(s, m);
    if a >= 0 {
        let d = (a * s) / m;
        assert(0 <= a * s && a * s <= m * s) by (nonlinear_arith)
            requires
                0 <= a <= m,
                0 <= s,
        ;
        lemma_div_is_ordered(0, a * s, m);
        lemma_div_is_ordered(a * s, m * s, m);
        lemma_fundamental_div_mod(a * s, m);
        lemma_mod_bound(a * s, m);
        assert(d * m <= a * s < (d + 1) * m) by (nonlinear_arith)
            requires
                a * s == m * d + (a * s) % m,
                0 <= (a * s) % m < m,
        ;
        if s < m {
            assert(d <= a) by (nonlinear_arith)
                requires
                    d * m <= a * s,
                    0 <= a,
                    0 <= s < m,
                    0 < m,
                    0 <= d,
            ;
            assert(a * d >= d * d) by (nonlinear_arith)
                requires
                    0 <= d <= a,
            ;
            if a * s >= m {
                lemma_div_is_ordered(m, a * s, m);
                assert(m == m * 1) by (nonlinear_arith);
                assert(d >= 1);
                assert(d * d >= 1) by (nonlinear_arith)
                    requires
                        d >= 1,
                ;
            }
        }
    } else {
        let q = ((-a) * s) / m;
        let d = -q;
        assert(0 <= (-a) * s && (-a) * s <= m * s && (-a) * s == -(a * s)) by (nonlinear_arith)
            requires
                0 <= -a <= m,
                0 <= s,
        ;
        lemma_div_is_ordered(0, (-a) * s, m);
        lemma_div_is_ordered((-a) * s, m * s, m);
        lemma_fundamental_div_mod((-a) * s, m);
        lemma_mod_bound((-a) * s, m);
        assert(q * m <= (-a) * s < (q + 1) * m) by (nonlinear_arith)
            requires
                (-a) * s == m * q + ((-a) * s) % m,
                0 <= ((-a) * s) % m < m,
        ;
        assert(d * m >= a * s > (d - 1) * m) by (nonlinear_arith)
            requires
                q * m <= -(a * s) < (q + 1) * m,
                d == -q,
        ;
        if s < m {
            assert(q <= -a) by (nonlinear_arith)
                requires
                    q * m <= (-a) * s,
                    0 <= -a,
                    0 <= s < m,
                    0 < m,
                    0 <= q,
            ;
            assert(a * d >= d * d) by (nonlinear_arith)
                requires
                    0 <= q <= -a,
                    d == -q,
            ;
            if a * s <= -m {
                lemma_div_is_ordered(m, (-a) * s, m);
                assert(m == m * 1) by (nonlinear_arith);
                assert(q >= 1);
                assert(d * d >= 1) by (nonlinear_arith)
                    requires
                        q >= 1,
                        d == -q,
                ;
            }
        }
    }
}

/// Law: the strafe direction, `cross(a, b)`, is perpendicular to both of
/// its factors.
pub proof fn lemma_cross_perpendicular(a: (int, int, int), b: (int, int, int))
    ensures
        dot3(cross3(a, b), a) == 0,
        dot3(cross3(a, b), b) == 0,
{
    let c = cross3(a, b);
    assert(c.0 * a.0 + c.1 * a.1 + c.2 * a.2 == 0) by (nonlinear_arith)
        requires
            c.0 == a.1 * b.2 - a.2 * b.1,
            c.1 == a.2 * b.0 - a.0 * b.2,
            c.2 == a.0 * b.1 - a.1 * b.0,
    ;
    assert(c.0 * b.0 + c.1 * b.1 + c.2 * b.2 == 0) by (nonlinear_arith)
        requires
            c.0 == a.1 * b.2 - a.2 * b.1,
            c.1 == a.2 * b.0 - a.0 * b.2,
            c.2 == a.0 * b.1 - a.1 * b.0,
    ;
}

/// Each scaled component squares to within one rounding step of the exact
/// quotient's square.
proof fn lemma_strafe_component_square(a: int, s: int, m: int)
    requires
        0 < m,
        0 <= s,
        -m <= a <= m,
    ensures
        ({
            let d = scale_toward(a, s, m);
            &&& (m * m) * (d * d) <= (s * s) * (a * a)
            &&& (s * s) * (a * a) <= (m * m) * (d * d + 2 * s + 1)
        }),
{
    lemma_scale_component(a, s, m);
    let d = scale_toward(a, s, m);
    if a >= 0 {
        assert((m * m) * (d * d) <= (s * s) * (a * a) && (s * s) * (a * a) <= (m * m) * (d * d + 2
            * s + 1)) by (nonlinear_arith)
            requires
                0 <= d && d * m <= a * s < (d + 1) * m,
                d <= s,
                0 <= a,
                0 < m,
                0 <= s,
        ;
    } else {
        assert((m * m) * (d * d) <= (s * s) * (a * a) && (s * s) * (a * a) <= (m * m) * (d * d + 2
            * s + 1)) by (nonlinear_arith)
            requires
                d <= 0 && d * m >= a * s > (d - 1) * m,
                -s <= d,
                a < 0,
                0 < m,
                0 <= s,
        ;
    }
}

impl CameraController {
    /// Law: with no direction key held, the camera step is the identity,
    /// so repeating the frame tick without input leaves the camera as it
    /// is.
    pub proof fn lemma_idle_step(self, cam: Camera)
        requires
            !self.is_forward_pressed,
            !self.is_backward_pressed,
            !self.is_left_pressed,
            !self.is_right_pressed,
        ensures
            self.spec_updated_eye(cam) == cam.eye.s(),
    {
    }

    /// Law: with only the forward key held, one step moves the eye
    /// strictly closer to the target whenever the target is farther away
    /// than one speed step; once it is within one step, the eye stays put,
    /// so the camera never overshoots or inverts past its target.
    pub proof fn lemma_forward_progress(self, cam: Camera)
        requires
            self.wf(),
            self.is_forward_pressed,
            !self.is_backward_pressed,
            !self.is_left_pressed,
            !self.is_right_pressed,
        ensures
            ({
                let f = sub3(cam.target.s(), cam.eye.s());
                let m = spec_isqrt(norm2(f) as nat) as int;
                let e = self.spec_updated_eye(cam);
                &&& m > self.speed ==> norm2(sub3(cam.target.s(), e)) < norm2(f)
                &&& m <= self.speed ==> e == cam.eye.s()
            }),
    {
        let s = self.speed as int;
        let eye0 = cam.eye.s();
        let f = sub3(cam.target.s(), eye0);
        let m2 = norm2(f);
        assert(m2 == f.0 * f.0 + f.1 * f.1 + f.2 * f.2);
        assert(m2 >= 0 && f.0 * f.0 <= m2 && f.1 * f.1 <= m2 && f.2 * f.2 <= m2)
            by (nonlinear_arith)
            requires
                m2 == f.0 * f.0 + f.1 * f.1 + f.2 * f.2,
        ;
        let m = spec_isqrt(m2 as nat) as int;
        lemma_isqrt_bounds(m2 as nat);
        assert(m * m <= m2 < (m + 1) * (m + 1));
        let d = scaled3(f, s, m);
        if m > s {
            assert(self.spec_updated_eye(cam) == add3(eye0, d));
            assert(-m <= f.0 <= m) by (nonlinear_arith)
                requires
                    f.0 * f.0 <= m2,
                    m2 < (m + 1) * (m + 1),
                    0 <= m,
            ;
            assert(-m <= f.1 <= m) by (nonlinear_arith)
                requires
                    f.1 * f.1 <= m2,
                    m2 < (m + 1) * (m + 1),
                    0 <= m,
            ;
            assert(-m <= f.2 <= m) by (nonlinear_arith)
                requires
                    f.2 * f.2 <= m2,
                    m2 < (m + 1) * (m + 1),
                    0 <= m,
            ;
            lemma_scale_component(f.0, s, m);
            lemma_scale_component(f.1, s, m);
            lemma_scale_component(f.2, s, m);
            let rest = sub3(cam.target.s(), add3(eye0, d));
            assert(rest == sub3(f, d));
            assert(norm2(rest) == m2 - 2 * dot3(f, d) + norm2(d)) by (nonlinear_arith)
                requires
                    rest.0 == f.0 - d.0,
                    rest.1 == f.1 - d.1,
                    rest.2 == f.2 - d.2,
                    norm2(rest) == rest.0 * rest.0 + rest.1 * rest.1 + rest.2 * rest.2,
                    m2 == f.0 * f.0 + f.1 * f.1 + f.2 * f.2,
                    norm2(d) == d.0 * d.0 + d.1 * d.1 + d.2 * d.2,
                    dot3(f, d) == f.0 * d.0 + f.1 * d.1 + f.2 * d.2,
            ;
            assert(dot3(f, d) >= norm2(d));
            assert(d.0 * d.0 >= 0 && d.1 * d.1 >= 0 && d.2 * d.2 >= 0) by (nonlinear_arith);
            if f.0 * s < m && -m < f.0 * s && f.1 * s < m && -m < f.1 * s && f.2 * s < m && -m
                < f.2 * s {
                assert((f.0 * f.0) * (s * s) < m * m) by (nonlinear_arith)
                    requires
                        -m < f.0 * s < m,
                        0 < m,
                ;
                assert((f.1 * f.1) * (s * s) < m * m) by (nonlinear_arith)
                    requires
                        -m < f.1 * s < m,
                        0 < m,
                ;
                assert((f.2 * f.2) * (s * s) < m * m) by (nonlinear_arith)
                    requires
                        -m < f.2 * s < m,
                        0 < m,
                ;
                assert(false) by (nonlinear_arith)
                    requires
                        m2 == f.0 * f.0 + f.1 * f.1 + f.2 * f.2,
                        (f.0 * f.0) * (s * s) < m * m,
                        (f.1 * f.1) * (s * s) < m * m,
                        (f.2 * f.2) * (s * s) < m * m,
                        m * m <= m2,
                        2 <= s,
                        0 < m,
                ;
            }
            assert(norm2(d) >= 1);
            assert(norm2(rest) < m2);
        } else {
            assert(self.spec_updated_eye(cam) == eye0);
        }
    }

    /// Law: with only the right key held, one step moves the eye along
    /// `cross(forward, up)`, which is perpendicular to both the forward
    /// direction and the up vector, and the squared step length is the
    /// squared speed up to rounding, whatever the distance to the target.
    pub proof fn lemma_strafe_step(self, cam: Camera)
        requires
            self.wf(),
            self.is_right_pressed,
            !self.is_forward_pressed,
            !self.is_backward_pressed,
            !self.is_left_pressed,
        ensures
            ({
                let s = self.speed as int;
                let f = sub3(cam.target.s(), cam.eye.s());
                let c = cross3(f, cam.up.s());
                let cm = spec_isqrt(norm2(c) as nat) as int;
                let d = scaled3(c, s, cm);
                &&& dot3(c, f) == 0
                &&& dot3(c, cam.up.s()) == 0
                &&& cm > 0 ==> self.spec_updated_eye(cam) == add3(cam.eye.s(), d)
                &&& cm == 0 ==> self.spec_updated_eye(cam) == cam.eye.s()
                &&& cm > 0 ==> (cm * cm) * norm2(d) <= (s * s) * norm2(c)
                &&& cm > 0 ==> norm2(d) >= s * s - 6 * s - 3
            }),
    {
        let s = self.speed as int;
        let eye0 = cam.eye.s();
        let f = sub3(cam.target.s(), eye0);
        let c = cross3(f, cam.up.s());
        let c2 = norm2(c);
        assert(c2 == c.0 * c.0 + c.1 * c.1 + c.2 * c.2);
        assert(c2 >= 0 && c.0 * c.0 <= c2 && c.1 * c.1 <= c2 && c.2 * c.2 <= c2)
            by (nonlinear_arith)
            requires
                c2 == c.0 * c.0 + c.1 * c.1 + c.2 * c.2,
        ;
        let cm = spec_isqrt(c2 as nat) as int;
        lemma_isqrt_bounds(c2 as nat);
        assert(cm * cm <= c2 < (cm + 1) * (cm + 1));
        let d = scaled3(c, s, cm);
        lemma_cross_perpendicular(f, cam.up.s());
        assert(dot3(c, f) == 0);
        if cm > 0 {
            assert(self.spec_updated_eye(cam) == add3(eye0, d));
            assert(-cm <= c.0 <= cm) by (nonlinear_arith)
                requires
                    c.0 * c.0 <= c2,
                    c2 < (cm + 1) * (cm + 1),
                    0 <= cm,
            ;
            assert(-cm <= c.1 <= cm) by (nonlinear_arith)
                requires
                    c.1 * c.1 <= c2,
                    c2 < (cm + 1) * (cm + 1),
                    0 <= cm,
            ;
            assert(-cm <= c.2 <= cm) by (nonlinear_arith)
                requires
                    c.2 * c.2 <= c2,
                    c2 < (cm + 1) * (cm + 1),
                    0 <= cm,
            ;
            lemma_scale_component(c.0, s, cm);
            lemma_scale_component(c.1, s, cm);
            lemma_scale_component(c.2, s, cm);
            lemma_strafe_component_square(c.0, s, cm);
            lemma_strafe_component_square(c.1, s, cm);
            lemma_strafe_component_square(c.2, s, cm);
            assert((cm * cm) * norm2(d) <= (s * s) * c2) by (nonlinear_arith)
                requires
                    norm2(d) == d.0 * d.0 + d.1 * d.1 + d.2 * d.2,
                    c2 == c.0 * c.0 + c.1 * c.1 + c.2 * c.2,
                    (cm * cm) * (d.0 * d.0) <= (s * s) * (c.0 * c.0),
                    (cm * cm) * (d.1 * d.1) <= (s * s) * (c.1 * c.1),
                    (cm * cm) * (d.2 * d.2) <= (s * s) * (c.2 * c.2),
            ;
            assert((s * s) * c2 <= (cm * cm) * (norm2(d) + 6 * s + 3)) by (nonlinear_arith)
                requires
                    norm2(d) == d.0 * d.0 + d.1 * d.1 + d.2 * d.2,
                    c2 == c.0 * c.0 + c.1 * c.1 + c.2 * c.2,
                    (s * s) * (c.0 * c.0) <= (cm * cm) * (d.0 * d.0 + 2 * s + 1),
                    (s * s) * (c.1 * c.1) <= (cm * cm) * (d.1 * d.1 + 2 * s + 1),
                    (s * s) * (c.2 * c.2) <= (cm * cm) * (d.2 * d.2 + 2 * s + 1),
            ;
            assert(norm2(d) >= s * s - 6 * s - 3) by (nonlinear_arith)
                requires
                    (s * s) * c2 <= (cm * cm) * (norm2(d) + 6 * s + 3),
                    cm * cm <= c2,
                    0 < cm,
                    0 <= s,
            ;
        } else {
            assert(self.spec_updated_eye(cam) == eye0);
        }
    }
}

} // verus!
