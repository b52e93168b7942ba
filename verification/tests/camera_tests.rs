//! The camera controller: key handling and the movement step.

use render_core::camera::Camera;
use render_core::camera::Vec3I;
use render_core::camera_controller::CameraController;
use render_core::camera_controller::ElementState;
use render_core::camera_controller::InputEvent;
use render_core::camera_controller::Key;

fn test_camera() -> Camera {
    Camera {
        eye: Vec3I { x: 0, y: 1000, z: 2000 },
        target: Vec3I { x: 0, y: 0, z: 0 },
        up: Vec3I { x: 0, y: 1000, z: 0 },
        aspect_width: 300,
        aspect_height: 300,
        fovy_mdeg: 45000,
        znear: 100,
        zfar: 100000,
    }
}

fn dist2(c: &Camera) -> i128 {
    let fx = (c.target.x - c.eye.x) as i128;
    let fy = (c.target.y - c.eye.y) as i128;
    let fz = (c.target.z - c.eye.z) as i128;
    fx * fx + fy * fy + fz * fz
}

fn press(key: Key) -> InputEvent {
    InputEvent::Keyboard { key, state: ElementState::Pressed }
}

fn release(key: Key) -> InputEvent {
    InputEvent::Keyboard { key, state: ElementState::Released }
}

#[test]
fn keys_set_and_clear_flags() {
    let mut c = CameraController::new(200);
    assert!(c.process_events(&press(Key::KeyW)));
    assert!(c.is_forward_pressed);
    assert!(c.process_events(&release(Key::KeyW)));
    assert!(!c.is_forward_pressed);
    assert!(c.process_events(&press(Key::ArrowUp)));
    assert!(c.is_forward_pressed);
    assert!(c.process_events(&press(Key::KeyS)));
    assert!(c.is_backward_pressed);
    assert!(c.process_events(&press(Key::KeyA)));
    assert!(c.is_left_pressed);
    assert!(c.process_events(&press(Key::KeyD)));
    assert!(c.is_right_pressed);
    assert!(c.process_events(&press(Key::Space)));
    assert!(c.is_up_pressed);
    assert!(c.process_events(&press(Key::ShiftLeft)));
    assert!(c.is_down_pressed);
    assert!(!c.process_events(&InputEvent::Other));
}

#[test]
fn forward_moves_strictly_closer_until_within_one_step() {
    // Holding only "forward", the eye approaches the target every tick and
    // stops once the distance is within one speed step.
    let mut cam = test_camera();
    let mut ctl = CameraController::new(200);
    ctl.process_events(&press(Key::KeyW));
    let mut prev = dist2(&cam);
    let speed: i128 = 200;
    for _ in 0..40 {
        ctl.update_camera(&mut cam);
        let now = dist2(&cam);
        if prev > speed * speed {
            assert!(now < prev, "eye must move strictly closer");
        } else {
            assert_eq!(now, prev, "within one step the eye must not move");
        }
        prev = now;
    }
    assert!(prev <= speed * speed);
}

#[test]
fn forward_stops_exactly_at_close_range() {
    let mut cam = test_camera();
    cam.eye = Vec3I { x: 0, y: 0, z: 300 };
    let mut ctl = CameraController::new(200);
    ctl.process_events(&press(Key::KeyW));
    ctl.update_camera(&mut cam);
    // One step of 200 along (0, 0, -1).
    assert_eq!((cam.eye.x, cam.eye.y, cam.eye.z), (0, 0, 100));
    ctl.update_camera(&mut cam);
    // 100 <= speed: no further movement.
    assert_eq!((cam.eye.x, cam.eye.y, cam.eye.z), (0, 0, 100));
}

#[test]
fn strafe_right_moves_by_speed_along_the_cross_direction() {
    // forward = (0, -1000, -2000), up = (0, 1000, 0):
    // cross(forward, up) = (2000000, 0, 0), so one step is exactly
    // (speed, 0, 0), independent of the distance to the target.
    let mut cam = test_camera();
    let mut ctl = CameraController::new(200);
    ctl.process_events(&press(Key::KeyD));
    ctl.update_camera(&mut cam);
    assert_eq!((cam.eye.x, cam.eye.y, cam.eye.z), (200, 1000, 2000));

    // Twice as far away: the step stays the same.
    let mut far = test_camera();
    far.eye = Vec3I { x: 0, y: 2000, z: 4000 };
    ctl.update_camera(&mut far);
    assert_eq!((far.eye.x, far.eye.y, far.eye.z), (200, 2000, 4000));
}

#[test]
fn strafe_left_is_the_mirror_of_right() {
    let mut cam = test_camera();
    let mut ctl = CameraController::new(200);
    ctl.process_events(&press(Key::KeyA));
    ctl.update_camera(&mut cam);
    assert_eq!((cam.eye.x, cam.eye.y, cam.eye.z), (-200, 1000, 2000));
}

#[test]
fn opposite_keys_cancel() {
    let mut cam = test_camera();
    let mut ctl = CameraController::new(200);
    ctl.process_events(&press(Key::KeyW));
    ctl.process_events(&press(Key::KeyS));
    ctl.process_events(&press(Key::KeyA));
    ctl.process_events(&press(Key::KeyD));
    let before = (cam.eye.x, cam.eye.y, cam.eye.z);
    ctl.update_camera(&mut cam);
    assert_eq!((cam.eye.x, cam.eye.y, cam.eye.z), before);
}

#[test]
fn camera_on_target_does_not_move() {
    let mut cam = test_camera();
    cam.eye = Vec3I { x: 0, y: 0, z: 0 };
    let mut ctl = CameraController::new(200);
    ctl.process_events(&press(Key::KeyW));
    ctl.process_events(&press(Key::KeyD));
    ctl.update_camera(&mut cam);
    assert_eq!((cam.eye.x, cam.eye.y, cam.eye.z), (0, 0, 0));
}
