use bevy_ui_nav::default_input_map::{
    default_input_map, BUTTON_DPAD_LEFT, BUTTON_EAST, BUTTON_SOUTH, KEY_ARROW_DOWN, KEY_ARROW_UP,
    KEY_ENTER, KEY_ESCAPE, KEY_SPACE,
};
use bevy_ui_nav::events::NavRequest;
use bevy_ui_nav::input::{
    get_gamepad_axes, update_input_manager, ActionType, GamepadButton, GamepadDevice,
    GamepadState, GamepadStick, InputMapping, KeyCode, UiNavInputManager,
};
use bevy_ui_nav::input_requests::{
    action_requests, handle_gamepad_input, handle_keyboard_input_events,
    handle_keyboard_input_presses, movement_speed, ButtonState, KeyboardInput,
};
use bevy_ui_nav::resources::{Stopwatch, UiNavSettings, UiNavState};
use bevy_ui_nav::setup::tick_pressed_timer;
use bevy_ui_nav::types::{PressType, UiNavDirection};
use bevy_ui_nav::utils::Vec2;

fn gamepad(entity: u64, buttons: &[u32], left: (i32, i32)) -> GamepadState {
    GamepadState {
        entity,
        pressed: buttons.iter().map(|b| GamepadButton(*b)).collect(),
        left_stick: Vec2::new(left.0, left.1),
        right_stick: Vec2::new(0, 0),
    }
}

fn stick(x: i32, y: i32) -> Vec2 {
    let g = gamepad(1, &[], (x, y));
    get_gamepad_axes(&g, GamepadStick::Left, 1_000, 9_000)
}

#[test]
fn action_types_map_to_directions() {
    assert_eq!(ActionType::Up.to_direction(), Some(UiNavDirection::Up));
    assert_eq!(ActionType::Down.to_direction(), Some(UiNavDirection::Down));
    assert_eq!(ActionType::Left.to_direction(), Some(UiNavDirection::Left));
    assert_eq!(ActionType::Right.to_direction(), Some(UiNavDirection::Right));
    assert_eq!(ActionType::Action.to_direction(), None);
    assert_eq!(ActionType::Cancel.to_direction(), None);
    assert_eq!(GamepadDevice::from(7), GamepadDevice::Single(7));
    assert_eq!(GamepadDevice::default(), GamepadDevice::Any);
}

#[test]
fn the_dead_zone_drops_small_stick_values() {
    assert_eq!(stick(1_000, -1_000), Vec2::new(0, 0));
    assert_eq!(stick(1_001, 0), Vec2::new(1_001, 0));
    assert_eq!(stick(0, -1_001), Vec2::new(0, -1_001));
    assert_eq!(stick(i32::MIN, 0), Vec2::new(i32::MIN, 0));
}

#[test]
fn the_snap_drops_the_smaller_axis() {
    assert_eq!(stick(8_000, 2_000), Vec2::new(8_000, 0));
    assert_eq!(stick(2_000, -8_000), Vec2::new(0, -8_000));
    // Equal sizes: x gives way.
    assert_eq!(stick(5_000, 5_000), Vec2::new(0, 5_000));
    // 9_000 apart is not less than the snap: both stay.
    assert_eq!(stick(10_500, 1_500), Vec2::new(10_500, 1_500));
    assert_eq!(stick(10_499, 1_500), Vec2::new(10_499, 0));
    let g = GamepadState {
        entity: 1,
        pressed: vec![],
        left_stick: Vec2::new(0, 0),
        right_stick: Vec2::new(-3_000, 200),
    };
    assert_eq!(get_gamepad_axes(&g, GamepadStick::Right, 1_000, 9_000), Vec2::new(-3_000, 0));
    assert_eq!(get_gamepad_axes(&g, GamepadStick::Right, 100, 0), Vec2::new(-3_000, 200));
}

#[test]
fn a_new_manager_has_seen_nothing() {
    let manager = UiNavInputManager::default();
    assert_eq!(manager.input_map, default_input_map());
    assert_eq!(manager.input_map.len(), 14);
    assert_eq!(manager.stick_tolerance, 1_000);
    assert_eq!(manager.stick_snap_tolerance, 9_000);
    assert_eq!(manager.gamepad, GamepadDevice::Any);
    for action in [
        ActionType::Up,
        ActionType::Down,
        ActionType::Left,
        ActionType::Right,
        ActionType::Action,
        ActionType::Cancel,
    ] {
        assert!(!manager.pressed(action));
        assert!(!manager.was_pressed(action));
        assert!(!manager.just_pressed(action));
        assert!(!manager.just_released(action));
        assert_eq!(manager.get_press_type(action), None);
    }
    assert_eq!(manager.direction(), None);
    assert_eq!(manager.previous_direction(), None);
    assert!(!manager.is_direction_released());
}

#[test]
fn buttons_are_read_frame_by_frame() {
    let mut manager = UiNavInputManager::default();
    update_input_manager(&mut manager, &vec![gamepad(1, &[BUTTON_SOUTH, BUTTON_DPAD_LEFT], (0, 0))]);
    assert!(manager.pressed(ActionType::Action));
    assert!(manager.pressed(ActionType::Left));
    assert!(!manager.pressed(ActionType::Cancel));
    assert!(manager.just_pressed(ActionType::Action));
    assert_eq!(manager.get_press_type(ActionType::Action), Some(PressType::Press));
    assert_eq!(manager.direction(), Some(UiNavDirection::Left));
    assert_eq!(manager.previous_direction(), None);

    update_input_manager(&mut manager, &vec![gamepad(1, &[BUTTON_SOUTH], (0, 0))]);
    assert!(manager.pressed(ActionType::Action));
    assert!(manager.was_pressed(ActionType::Action));
    assert!(!manager.just_pressed(ActionType::Action));
    assert_eq!(manager.get_press_type(ActionType::Action), None);
    assert!(!manager.pressed(ActionType::Left));
    assert!(manager.was_pressed(ActionType::Left));
    assert!(manager.just_released(ActionType::Left));
    assert_eq!(manager.direction(), None);
    assert_eq!(manager.previous_direction(), Some(UiNavDirection::Left));
    assert!(manager.is_direction_released());

    update_input_manager(&mut manager, &vec![gamepad(1, &[BUTTON_EAST], (0, 0))]);
    assert_eq!(manager.get_press_type(ActionType::Action), Some(PressType::Release));
    assert_eq!(manager.get_press_type(ActionType::Cancel), Some(PressType::Press));
    assert!(!manager.is_direction_released());

    manager.reset();
    assert!(!manager.pressed(ActionType::Cancel));
    assert!(manager.was_pressed(ActionType::Cancel));
    assert!(!manager.was_pressed(ActionType::Action));
}

#[test]
fn the_stick_gives_one_of_eight_directions() {
    let cases = [
        ((0, 0), None),
        ((5_000, 0), Some(UiNavDirection::Right)),
        ((-5_000, 0), Some(UiNavDirection::Left)),
        ((0, 5_000), Some(UiNavDirection::Up)),
        ((0, -5_000), Some(UiNavDirection::Down)),
        ((900, -900), None),
        ((7_000, -6_000), Some(UiNavDirection::Right)),
    ];
    for (value, expected) in cases {
        let mut manager = UiNavInputManager::default();
        update_input_manager(&mut manager, &vec![gamepad(1, &[], value)]);
        assert_eq!(manager.direction(), expected);
    }
    // Without a snap, both axes count.
    let diagonals = [
        ((5_000, 5_000), UiNavDirection::UpRight),
        ((-5_000, 5_000), UiNavDirection::UpLeft),
        ((5_000, -5_000), UiNavDirection::DownRight),
        ((-5_000, -5_000), UiNavDirection::DownLeft),
    ];
    for (value, expected) in diagonals {
        let mut manager = UiNavInputManager::from_input_map(&default_input_map(), 1_000, 0);
        update_input_manager(&mut manager, &vec![gamepad(1, &[], value)]);
        assert_eq!(manager.direction(), Some(expected));
    }
}

#[test]
fn the_longest_stick_of_the_gamepads_counts() {
    let mut manager = UiNavInputManager::default();
    let gamepads = vec![gamepad(1, &[], (2_000, 0)), gamepad(2, &[], (0, -9_000))];
    update_input_manager(&mut manager, &gamepads);
    assert_eq!(manager.direction(), Some(UiNavDirection::Down));
    manager.set_gamepad(GamepadDevice::Single(1));
    update_input_manager(&mut manager, &gamepads);
    assert_eq!(manager.direction(), Some(UiNavDirection::Right));
    manager.set_gamepad(GamepadDevice::Single(3));
    update_input_manager(&mut manager, &gamepads);
    assert_eq!(manager.direction(), None);
}

#[test]
fn a_line_of_the_input_map_can_name_its_gamepad() {
    let map = vec![
        InputMapping::GamepadButton {
            gamepad: Some(2),
            button: GamepadButton(9),
            action: ActionType::Up,
        },
        InputMapping::GamepadButton {
            gamepad: None,
            button: GamepadButton(8),
            action: ActionType::Down,
        },
        InputMapping::GamepadAxes { gamepad: Some(1), stick: GamepadStick::Right },
        InputMapping::Key { keycode: KeyCode(1), action: ActionType::Cancel },
    ];
    let mut manager = UiNavInputManager::from_input_map(&map, 1_000, 9_000);
    assert_eq!(manager.input_map, map);
    update_input_manager(&mut manager, &vec![gamepad(1, &[9], (0, 0))]);
    assert_eq!(manager.direction(), None);
    update_input_manager(&mut manager, &vec![gamepad(1, &[9], (0, 0)), gamepad(2, &[9], (0, 0))]);
    assert_eq!(manager.direction(), Some(UiNavDirection::Up));
    update_input_manager(&mut manager, &vec![gamepad(1, &[8, 9], (0, 0)), gamepad(2, &[9], (0, 0))]);
    assert_eq!(manager.direction(), Some(UiNavDirection::Down));
    let mut with_right = gamepad(2, &[], (0, 0));
    with_right.right_stick = Vec2::new(-4_000, 0);
    update_input_manager(&mut manager, &vec![with_right]);
    assert_eq!(manager.direction(), None);
    let mut with_right = gamepad(1, &[], (0, 0));
    with_right.right_stick = Vec2::new(-4_000, 0);
    update_input_manager(&mut manager, &vec![with_right]);
    assert_eq!(manager.direction(), Some(UiNavDirection::Left));
}

#[test]
fn the_pace_of_a_held_direction_goes_from_slow_to_fast() {
    let settings = UiNavSettings::default();
    assert_eq!(settings.movement_speed_slow, 500_000);
    assert_eq!(settings.movement_speed_fast, 100_000);
    assert_eq!(settings.movement_acceleration_time, 1_000_000);
    assert_eq!(movement_speed(&settings, 0), 500_000);
    assert_eq!(movement_speed(&settings, 250_000), 400_000);
    assert_eq!(movement_speed(&settings, 500_000), 300_000);
    assert_eq!(movement_speed(&settings, 999_999), 100_000);
    assert_eq!(movement_speed(&settings, 1_000_000), 100_000);
    assert_eq!(movement_speed(&settings, u64::MAX), 100_000);
    let instant = UiNavSettings { movement_acceleration_time: 0, ..settings };
    assert_eq!(movement_speed(&instant, 0), 100_000);
}

#[test]
fn a_held_direction_repeats_at_the_pace_of_the_settings() {
    let settings = UiNavSettings::default();
    let mut manager = UiNavInputManager::default();
    let mut nav_state = UiNavState::default();
    nav_state.menu = Some(100);
    let held = vec![gamepad(1, &[], (0, -8_000))];
    let down = NavRequest::Movement(UiNavDirection::Down);

    let requests = handle_gamepad_input(&held, &mut nav_state, &settings, &mut manager);
    assert_eq!(requests, vec![down]);
    assert_eq!(nav_state.direction, Some(UiNavDirection::Down));

    tick_pressed_timer(500_000, &mut nav_state);
    assert_eq!(nav_state.nav_timer, Stopwatch { elapsed: 500_000 });
    assert_eq!(nav_state.hold_timer, Stopwatch { elapsed: 500_000 });
    // After half a second the pace is 300 ms, and 500 ms have gone by.
    let requests = handle_gamepad_input(&held, &mut nav_state, &settings, &mut manager);
    assert_eq!(requests, vec![down]);
    assert_eq!(nav_state.nav_timer, Stopwatch { elapsed: 0 });
    assert_eq!(nav_state.hold_timer, Stopwatch { elapsed: 500_000 });

    tick_pressed_timer(220_000, &mut nav_state);
    // The pace is now 212 ms.
    let requests = handle_gamepad_input(&held, &mut nav_state, &settings, &mut manager);
    assert_eq!(requests, vec![down]);
    tick_pressed_timer(100_000, &mut nav_state);
    let requests = handle_gamepad_input(&held, &mut nav_state, &settings, &mut manager);
    assert_eq!(requests, vec![]);
    assert_eq!(nav_state.nav_timer, Stopwatch { elapsed: 100_000 });

    let requests = handle_gamepad_input(&vec![], &mut nav_state, &settings, &mut manager);
    assert_eq!(requests, vec![NavRequest::MovementReleased]);
    assert_eq!(nav_state.direction, None);
    assert_eq!(nav_state.nav_timer, Stopwatch { elapsed: 0 });
    assert_eq!(nav_state.hold_timer, Stopwatch { elapsed: 0 });
    // The timers stand still while no direction is held.
    tick_pressed_timer(100_000, &mut nav_state);
    assert_eq!(nav_state.hold_timer, Stopwatch { elapsed: 0 });
}

#[test]
fn the_timers_stop_at_the_largest_time() {
    let mut nav_state = UiNavState::default();
    nav_state.direction = Some(UiNavDirection::Up);
    tick_pressed_timer(u64::MAX - 1, &mut nav_state);
    tick_pressed_timer(5, &mut nav_state);
    assert_eq!(nav_state.nav_timer.elapsed, u64::MAX);
    nav_state.clear_direction();
    assert_eq!(nav_state, UiNavState::default());
}

#[test]
fn action_and_cancel_buttons_give_their_requests() {
    let settings = UiNavSettings::default();
    let mut manager = UiNavInputManager::default();
    let mut nav_state = UiNavState::default();
    nav_state.menu = Some(100);
    let pressed = vec![gamepad(1, &[BUTTON_SOUTH, BUTTON_EAST], (0, 0))];
    let requests = handle_gamepad_input(&pressed, &mut nav_state, &settings, &mut manager);
    assert_eq!(requests, vec![NavRequest::ActionPress, NavRequest::Cancel]);
    let requests = handle_gamepad_input(&pressed, &mut nav_state, &settings, &mut manager);
    assert_eq!(requests, vec![]);
    let requests = handle_gamepad_input(&vec![], &mut nav_state, &settings, &mut manager);
    assert_eq!(requests, vec![NavRequest::ActionRelease]);
    assert_eq!(action_requests(&mut nav_state, &settings, &manager), vec![NavRequest::ActionRelease]);
}

#[test]
fn a_locked_navigation_still_hears_cancel() {
    let settings = UiNavSettings::default();
    let mut manager = UiNavInputManager::default();
    let mut nav_state = UiNavState::default();
    nav_state.menu = Some(100);
    nav_state.locked = true;
    nav_state.direction = Some(UiNavDirection::Up);
    nav_state.hold_timer = Stopwatch { elapsed: 5 };
    let pressed = vec![gamepad(1, &[BUTTON_SOUTH, BUTTON_EAST], (0, 9_000))];
    let requests = handle_gamepad_input(&pressed, &mut nav_state, &settings, &mut manager);
    assert_eq!(requests, vec![NavRequest::Cancel]);
    assert_eq!(nav_state.direction, None);
    assert_eq!(nav_state.hold_timer, Stopwatch { elapsed: 0 });
    let mut without_menu = UiNavState::default();
    let mut manager = UiNavInputManager::default();
    let requests = handle_gamepad_input(&pressed, &mut without_menu, &settings, &mut manager);
    assert_eq!(requests, vec![NavRequest::Cancel]);
}

#[test]
fn arrow_keys_move_on_every_key_event() {
    let manager = UiNavInputManager::default();
    let events = vec![
        KeyboardInput { key_code: KeyCode(KEY_ARROW_DOWN), state: ButtonState::Pressed },
        KeyboardInput { key_code: KeyCode(KEY_ARROW_DOWN), state: ButtonState::Pressed },
        KeyboardInput { key_code: KeyCode(KEY_ARROW_DOWN), state: ButtonState::Released },
        KeyboardInput { key_code: KeyCode(KEY_SPACE), state: ButtonState::Pressed },
        KeyboardInput { key_code: KeyCode(KEY_ARROW_UP), state: ButtonState::Pressed },
        KeyboardInput { key_code: KeyCode(999), state: ButtonState::Pressed },
    ];
    assert_eq!(
        handle_keyboard_input_events(&events, &manager),
        vec![
            NavRequest::Movement(UiNavDirection::Down),
            NavRequest::Movement(UiNavDirection::Down),
            NavRequest::Movement(UiNavDirection::Up),
        ]
    );
    assert_eq!(handle_keyboard_input_events(&vec![], &manager), vec![]);
}

#[test]
fn action_and_cancel_keys_give_their_requests() {
    let manager = UiNavInputManager::default();
    let space = KeyCode(KEY_SPACE);
    let enter = KeyCode(KEY_ENTER);
    let escape = KeyCode(KEY_ESCAPE);
    assert_eq!(
        handle_keyboard_input_presses(&vec![space, escape], &vec![enter], &manager),
        vec![NavRequest::ActionPress, NavRequest::ActionRelease, NavRequest::Cancel]
    );
    assert_eq!(
        handle_keyboard_input_presses(&vec![space], &vec![space], &manager),
        vec![NavRequest::ActionPress]
    );
    assert_eq!(
        handle_keyboard_input_presses(&vec![KeyCode(KEY_ARROW_UP)], &vec![escape], &manager),
        vec![]
    );
}
