use draw::control::{
    movement_of_key, CameraControl, CameraNavigation, CursorChange, CAMERA_BACKWARDS, CAMERA_DOWNWARDS,
    CAMERA_FOWARDS, CAMERA_LEFT, CAMERA_RIGHT, CAMERA_UPWARDS,
};
use draw::keys::Key;

fn free() -> CameraControl {
    let mut c = CameraControl::new();
    assert_eq!(c.toggle_camera_mode(), CursorChange::Hide);
    c
}

#[test]
fn starts_locked_and_still() {
    let c = CameraControl::new();
    assert_eq!(c.mode, CameraNavigation::Locked);
    assert_eq!(c.moving_direction, 0);
}

#[test]
fn toggling_switches_mode_and_cursor() {
    let mut c = CameraControl::new();
    assert_eq!(c.toggle_camera_mode(), CursorChange::Hide);
    assert_eq!(c.mode, CameraNavigation::Free);
    assert_eq!(c.toggle_camera_mode(), CursorChange::Show);
    assert_eq!(c.mode, CameraNavigation::Locked);
}

#[test]
fn movement_flags_of_keys() {
    assert_eq!(movement_of_key(Key::W), CAMERA_FOWARDS);
    assert_eq!(movement_of_key(Key::UpArrow), CAMERA_FOWARDS);
    assert_eq!(movement_of_key(Key::S), CAMERA_BACKWARDS);
    assert_eq!(movement_of_key(Key::DownArrow), CAMERA_BACKWARDS);
    assert_eq!(movement_of_key(Key::A), CAMERA_LEFT);
    assert_eq!(movement_of_key(Key::LeftArrow), CAMERA_LEFT);
    assert_eq!(movement_of_key(Key::D), CAMERA_RIGHT);
    assert_eq!(movement_of_key(Key::RightArrow), CAMERA_RIGHT);
    assert_eq!(movement_of_key(Key::Space), CAMERA_UPWARDS);
    assert_eq!(movement_of_key(Key::LeftShift), CAMERA_DOWNWARDS);
    assert_eq!(movement_of_key(Key::Q), 0);
    assert_eq!((CAMERA_FOWARDS, CAMERA_BACKWARDS, CAMERA_LEFT, CAMERA_RIGHT, CAMERA_UPWARDS, CAMERA_DOWNWARDS), (1, 2, 4, 8, 16, 32));
}

#[test]
fn add_and_remove_movements() {
    let mut c = CameraControl::new();
    c.add_camera_movement(CAMERA_LEFT);
    c.add_camera_movement(CAMERA_UPWARDS);
    assert_eq!(c.moving_direction, 20);
    c.add_camera_movement(CAMERA_LEFT);
    assert_eq!(c.moving_direction, 20);
    c.rm_camera_movement(CAMERA_LEFT);
    assert_eq!(c.moving_direction, 16);
    c.rm_camera_movement(CAMERA_RIGHT);
    assert_eq!(c.moving_direction, 16);
}

#[test]
fn keys_move_a_free_camera_only() {
    let mut c = CameraControl::new();
    assert_eq!(c.key_press(Key::W), None);
    assert_eq!(c.moving_direction, 0);
    assert_eq!(c.key_press(Key::F5), Some(CursorChange::Hide));
    assert_eq!(c.mode, CameraNavigation::Free);
    c.key_press(Key::W);
    c.key_press(Key::D);
    assert_eq!(c.moving_direction, CAMERA_FOWARDS | CAMERA_RIGHT);
    let m = c.movement();
    assert!(m.foward && m.right && !m.backward && !m.left && !m.up && !m.down);
    c.key_release(Key::W);
    assert_eq!(c.moving_direction, CAMERA_RIGHT);
    assert_eq!(c.key_press(Key::F5), Some(CursorChange::Show));
    c.key_release(Key::D);
    assert_eq!(c.moving_direction, CAMERA_RIGHT);
}

#[test]
fn release_undoes_press() {
    let mut c = free();
    c.key_press(Key::Space);
    let before = c;
    c.key_press(Key::LeftShift);
    c.key_release(Key::LeftShift);
    assert_eq!(c, before);
}

#[test]
fn pressing_f5_twice_restores_the_control() {
    let mut c = free();
    c.key_press(Key::A);
    let before = c;
    c.key_press(Key::F5);
    c.key_press(Key::F5);
    assert_eq!(c, before);
}

#[test]
fn pointer_turns_a_free_camera() {
    let c = free();
    assert_eq!(c.camera_direction_delta(2, 5), Some((6, -15)));
    assert_eq!(c.camera_direction_delta(-1, -1), Some((-3, 3)));
    let l = CameraControl::new();
    assert_eq!(l.camera_direction_delta(2, 5), None);
}
