use scene_viewer::camera::{
    pan_direction, rotation_steps, PanKeys, RotateKeys, RotationSteps, PAN_SPEED,
    ROTATE_SPEED_DEG,
};
use scene_viewer::picking::{pick_event_message, PickEventKind};
use scene_viewer::vec3::Vec3i;

fn no_pan_keys() -> PanKeys {
    PanKeys { forward: false, back: false, left: false, right: false, down: false, up: false }
}

#[test]
fn no_keys_no_movement() {
    assert_eq!(pan_direction(no_pan_keys()), Vec3i::new(0, 0, 0));
}

#[test]
fn each_pan_key_moves_one_axis() {
    assert_eq!(pan_direction(PanKeys { forward: true, ..no_pan_keys() }), Vec3i::new(0, 0, -1));
    assert_eq!(pan_direction(PanKeys { back: true, ..no_pan_keys() }), Vec3i::new(0, 0, 1));
    assert_eq!(pan_direction(PanKeys { left: true, ..no_pan_keys() }), Vec3i::new(-1, 0, 0));
    assert_eq!(pan_direction(PanKeys { right: true, ..no_pan_keys() }), Vec3i::new(1, 0, 0));
    assert_eq!(pan_direction(PanKeys { down: true, ..no_pan_keys() }), Vec3i::new(0, -1, 0));
    assert_eq!(pan_direction(PanKeys { up: true, ..no_pan_keys() }), Vec3i::new(0, 1, 0));
}

#[test]
fn opposed_pan_keys_cancel() {
    let keys = PanKeys { forward: true, back: true, left: true, ..no_pan_keys() };
    assert_eq!(pan_direction(keys), Vec3i::new(-1, 0, 0));
    let all = PanKeys { forward: true, back: true, left: true, right: true, down: true, up: true };
    assert_eq!(pan_direction(all), Vec3i::new(0, 0, 0));
}

#[test]
fn diagonal_pan_combines_axes() {
    let keys = PanKeys { forward: true, right: true, up: true, ..no_pan_keys() };
    assert_eq!(pan_direction(keys), Vec3i::new(1, 1, -1));
}

#[test]
fn rotation_signs_follow_keys_and_shift() {
    let none = rotation_steps(RotateKeys { x: false, y: false, z: false, shift: false });
    assert_eq!(none, RotationSteps { x_sign: 0, y_sign: 0, z_sign: 0 });

    let plain = rotation_steps(RotateKeys { x: true, y: false, z: true, shift: false });
    assert_eq!(plain, RotationSteps { x_sign: 1, y_sign: 0, z_sign: 1 });

    let shifted = rotation_steps(RotateKeys { x: true, y: true, z: false, shift: true });
    assert_eq!(shifted, RotationSteps { x_sign: -1, y_sign: -1, z_sign: 0 });
}

#[test]
fn shift_alone_rotates_nothing() {
    let r = rotation_steps(RotateKeys { x: false, y: false, z: false, shift: true });
    assert_eq!(r, RotationSteps { x_sign: 0, y_sign: 0, z_sign: 0 });
}

#[test]
fn speeds_match_the_viewer() {
    assert_eq!(PAN_SPEED, 2);
    assert_eq!(ROTATE_SPEED_DEG, 45);
}

#[test]
fn pick_messages_name_each_event() {
    assert_eq!(pick_event_message(PickEventKind::Selection), "A selection event happened");
    assert_eq!(pick_event_message(PickEventKind::Hover), "Egads! A hover event!?");
    assert_eq!(pick_event_message(PickEventKind::Click), "Gee Willikers, it's a click!");
}
