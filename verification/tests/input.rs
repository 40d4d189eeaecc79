use graphics::events::Key;
use graphics::input::Actions;

#[test]
fn no_action_is_held_at_first() {
    let actions = Actions::default();
    assert_eq!(
        actions,
        Actions {
            accel_forward: false,
            accel_right: false,
            accel_left: false,
            turn_right: false,
            turn_left: false,
        }
    );
}

#[test]
fn keys_steer_the_actions() {
    let mut actions = Actions::default();
    actions.handle_key(Key::W, true);
    assert!(actions.accel_forward);
    actions.handle_key(Key::D, true);
    assert!(actions.accel_right);
    actions.handle_key(Key::A, true);
    assert!(actions.accel_left);
    actions.handle_key(Key::Right, true);
    assert!(actions.turn_right);
    actions.handle_key(Key::Left, true);
    assert!(actions.turn_left);
    actions.handle_key(Key::W, false);
    assert_eq!(
        actions,
        Actions {
            accel_forward: false,
            accel_right: true,
            accel_left: true,
            turn_right: true,
            turn_left: true,
        }
    );
    actions.handle_key(Key::Left, false);
    actions.handle_key(Key::Right, false);
    actions.handle_key(Key::A, false);
    actions.handle_key(Key::D, false);
    assert_eq!(actions, Actions::default());
}

#[test]
fn other_keys_change_nothing() {
    let mut actions = Actions::default();
    actions.handle_key(Key::D, true);
    let before = actions;
    for key in [Key::Space, Key::Up, Key::Down, Key::S, Key::Return, Key::Key1, Key::Tab] {
        actions.handle_key(key, true);
        assert_eq!(actions, before);
        actions.handle_key(key, false);
        assert_eq!(actions, before);
    }
}
