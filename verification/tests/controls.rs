use cube_world::cube::{
    flatten_rows, handle_direction, Cube, Rates, StartPose, ROTATION_SPEED, SCALE_SPEED,
    TRANSLATION_SPEED,
};
use cube_world::direction::Direction;
use cube_world::handle_input::handle_input;
use cube_world::keys::{Key, KeyEvent, NamedKey};

fn named(n: NamedKey, pressed: bool) -> KeyEvent {
    KeyEvent { logical_key: Key::Named(n), pressed }
}

fn typed(text: &str, pressed: bool) -> KeyEvent {
    KeyEvent { logical_key: Key::Character(text.to_string()), pressed }
}

#[test]
fn direction_signs() {
    assert_eq!(Direction::Inc.sign(), 1);
    assert_eq!(Direction::Dec.sign(), -1);
    assert_eq!(Direction::Idle.sign(), 0);
    assert_eq!(Direction::Dec.scaled(20), -20);
    assert_eq!(Direction::Idle.scaled(20), 0);
}

#[test]
fn keys_compare_by_meaning() {
    assert!(Key::character("q").same_as(&Key::Character("q".to_string())));
    assert!(!Key::character("q").same_as(&Key::character("Q")));
    assert!(!Key::character("q").same_as(&Key::character("qq")));
    assert!(Key::Named(NamedKey::Escape).same_as(&Key::Named(NamedKey::Escape)));
    assert!(!Key::Named(NamedKey::ArrowUp).same_as(&Key::Named(NamedKey::ArrowDown)));
    assert!(!Key::Named(NamedKey::Other).same_as(&Key::Unidentified));
}

#[test]
fn new_cube_is_at_rest() {
    let c = Cube::new();
    assert_eq!(c.translation.x_direction, Direction::Idle);
    assert_eq!(c.scale.z_direction, Direction::Idle);
    assert_eq!(c.num_vertices, 24);
    assert_eq!(
        c.rates(),
        Rates { translation_x: 0, translation_y: 0, translation_z: 0, rotation: 0, scale_x: 0, scale_y: 0, scale_z: 0 }
    );
    assert_eq!(
        Cube::start_pose(),
        StartPose { x: 0, y: 0, z: 100, angle: 0, scale_x: 1, scale_y: 1, scale_z: 1 }
    );
}

#[test]
fn arrows_slide_the_cube() {
    let mut c = Cube::new();
    c.handle_input(&named(NamedKey::ArrowLeft, true));
    assert_eq!(c.translation.x_direction, Direction::Dec);
    assert_eq!(c.translation.x_speed, -TRANSLATION_SPEED);
    assert_eq!(c.rates().translation_x, -100);
    c.handle_input(&named(NamedKey::ArrowDown, true));
    assert_eq!(c.translation.y_direction, Direction::Inc);
    assert_eq!(c.translation.y_speed, 100);
    c.handle_input(&named(NamedKey::ArrowLeft, false));
    assert_eq!(c.translation.x_direction, Direction::Idle);
    assert_eq!(c.translation.x_speed, 0);
    c.handle_input(&named(NamedKey::ArrowUp, true));
    assert_eq!(c.translation.y_direction, Direction::Dec);
    assert_eq!(c.translation.y_speed, -100);
}

#[test]
fn latest_press_wins() {
    let mut c = Cube::new();
    c.handle_input(&named(NamedKey::ArrowLeft, true));
    c.handle_input(&named(NamedKey::ArrowRight, true));
    c.handle_input(&named(NamedKey::ArrowLeft, false));
    assert_eq!(c.translation.x_direction, Direction::Inc);
    assert_eq!(c.translation.x_speed, 100);
    c.handle_input(&named(NamedKey::ArrowRight, false));
    assert_eq!(c.translation.x_direction, Direction::Idle);
}

#[test]
fn letters_turn_and_scale() {
    let mut c = Cube::new();
    c.handle_input(&typed("q", true));
    assert_eq!(c.rotation.direction, Direction::Inc);
    assert_eq!(c.rates().rotation, ROTATION_SPEED);
    c.handle_input(&typed("f", true));
    assert_eq!(c.rates().rotation, -1);
    c.handle_input(&typed("s", true));
    assert_eq!(c.rates().scale_x, SCALE_SPEED);
    c.handle_input(&typed("a", true));
    assert_eq!(c.rates().scale_x, -20);
    c.handle_input(&typed("w", true));
    assert_eq!(c.rates().scale_y, 20);
    c.handle_input(&typed("r", true));
    assert_eq!(c.rates().scale_y, -20);
    assert_eq!(c.rates().scale_z, 0);
    c.handle_input(&typed("r", false));
    assert_eq!(c.scale.y_direction, Direction::Idle);
}

#[test]
fn other_keys_change_nothing() {
    let mut c = Cube::new();
    c.handle_input(&typed("q", true));
    let before = c;
    c.handle_input(&typed("Q", true));
    c.handle_input(&typed("x", true));
    c.handle_input(&named(NamedKey::Escape, true));
    c.handle_input(&named(NamedKey::Other, false));
    c.handle_input(&KeyEvent { logical_key: Key::Unidentified, pressed: true });
    assert_eq!(c, before);
}

#[test]
fn release_of_inactive_key_keeps_direction() {
    let mut d = Direction::Inc;
    handle_direction(&typed("a", false), &Key::character("a"), Direction::Dec, &mut d);
    assert_eq!(d, Direction::Inc);
    handle_direction(&typed("a", true), &Key::character("a"), Direction::Dec, &mut d);
    assert_eq!(d, Direction::Dec);
    handle_direction(&typed("b", false), &Key::character("a"), Direction::Dec, &mut d);
    assert_eq!(d, Direction::Dec);
    handle_direction(&typed("a", false), &Key::character("a"), Direction::Dec, &mut d);
    assert_eq!(d, Direction::Idle);
}

#[test]
fn free_handle_input_slides_turns_and_exits() {
    let mut c = Cube::new();
    assert!(!handle_input(&named(NamedKey::ArrowRight, true), &mut c));
    assert_eq!(c.translation.x_speed, 100);
    assert!(!handle_input(&typed("q", true), &mut c));
    assert_eq!(c.rotation.direction, Direction::Inc);
    assert!(!handle_input(&typed("s", true), &mut c));
    assert_eq!(c.scale.x_direction, Direction::Idle);
    assert!(handle_input(&named(NamedKey::Escape, true), &mut c));
    assert!(handle_input(&named(NamedKey::Escape, false), &mut c));
}

#[test]
fn rows_flatten_in_order() {
    let m = [[1, 2, 3, 4], [5, 6, 7, 8], [9, 10, 11, 12], [13, 14, 15, 16]];
    assert_eq!(flatten_rows(&m), (1..=16).collect::<Vec<i32>>());
    let f = [[0.5f32, 0.0, 0.0, 0.0], [0.0, -1.0, 0.0, 0.0], [0.0, 0.0, 2.0, 0.0], [0.0, 0.0, 0.0, 1.0]];
    let flat = flatten_rows(&f);
    assert_eq!(flat[0], 0.5);
    assert_eq!(flat[5], -1.0);
    assert_eq!(flat[10], 2.0);
    assert_eq!(flat[15], 1.0);
}

#[test]
fn depth_is_never_steered() {
    let mut c = Cube::new();
    for text in ["q", "f", "s", "a", "w", "r", "z", "x"] {
        c.handle_input(&typed(text, true));
    }
    for n in [NamedKey::ArrowLeft, NamedKey::ArrowRight, NamedKey::ArrowUp, NamedKey::ArrowDown] {
        c.handle_input(&named(n, true));
    }
    assert_eq!(c.translation.z_direction, Direction::Idle);
    assert_eq!(c.translation.z_speed, 0);
    assert_eq!(c.scale.z_direction, Direction::Idle);
    assert_eq!(c.rates().translation_z, 0);
    assert_eq!(c.num_vertices, 24);
}
