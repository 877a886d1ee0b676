use vstd::prelude::*;
use crate::input::{
    ActionFlags, ActionType, GamepadButton, GamepadDevice, GamepadStick, InputMapping, KeyCode,
    UiNavInputManager, DEFAULT_STICK_SNAP_TOLERANCE, DEFAULT_STICK_TOLERANCE,
};

verus! {

/// The numbers of the keys and buttons that the default input map names.
pub const KEY_ARROW_UP: u32 = 1;

pub const KEY_ARROW_DOWN: u32 = 2;

pub const KEY_ARROW_LEFT: u32 = 3;

pub const KEY_ARROW_RIGHT: u32 = 4;

pub const KEY_SPACE: u32 = 5;

pub const KEY_ENTER: u32 = 6;

pub const KEY_ESCAPE: u32 = 7;

pub const BUTTON_DPAD_UP: u32 = 1;

pub const BUTTON_DPAD_DOWN: u32 = 2;

pub const BUTTON_DPAD_LEFT: u32 = 3;

pub const BUTTON_DPAD_RIGHT: u32 = 4;

pub const BUTTON_SOUTH: u32 = 5;

pub const BUTTON_EAST: u32 = 6;

pub open spec fn key(keycode: KeyCode, action: ActionType) -> InputMapping {
    InputMapping::Key { keycode, action }
}

pub open spec fn button(button: GamepadButton, action: ActionType) -> InputMapping {
    InputMapping::GamepadButton { gamepad: None, button, action }
}

/// The input map of a manager that was given none: arrow keys and d-pad
/// for the directions, space, enter and the south button for the action,
/// escape and the east button for cancel, and the left stick of any gamepad.
pub open spec fn default_input_map_spec() -> Seq<InputMapping> {
    seq![
        key(KeyCode(KEY_ARROW_UP), ActionType::Up),
        key(KeyCode(KEY_ARROW_DOWN), ActionType::Down),
        key(KeyCode(KEY_ARROW_LEFT), ActionType::Left),
        key(KeyCode(KEY_ARROW_RIGHT), ActionType::Right),
        key(KeyCode(KEY_SPACE), ActionType::Action),
        key(KeyCode(KEY_ENTER), ActionType::Action),
        key(KeyCode(KEY_ESCAPE), ActionType::Cancel),
        button(GamepadButton(BUTTON_DPAD_UP), ActionType::Up),
        button(GamepadButton(BUTTON_DPAD_DOWN), ActionType::Down),
        button(GamepadButton(BUTTON_DPAD_LEFT), ActionType::Left),
        button(GamepadButton(BUTTON_DPAD_RIGHT), ActionType::Right),
        button(GamepadButton(BUTTON_SOUTH), ActionType::Action),
        button(GamepadButton(BUTTON_EAST), ActionType::Cancel),
        InputMapping::GamepadAxes { gamepad: None, stick: GamepadStick::Left },
    ]
}

/// Builds the default input map.
pub fn default_input_map() -> (r: Vec<InputMapping>)
    ensures
        r@ == default_input_map_spec(),
{
    let mut map: Vec<InputMapping> = Vec::new();
    map.push(InputMapping::Key { keycode: KeyCode(KEY_ARROW_UP), action: ActionType::Up });
    map.push(InputMapping::Key { keycode: KeyCode(KEY_ARROW_DOWN), action: ActionType::Down });
    map.push(InputMapping::Key { keycode: KeyCode(KEY_ARROW_LEFT), action: ActionType::Left });
    map.push(InputMapping::Key { keycode: KeyCode(KEY_ARROW_RIGHT), action: ActionType::Right });
    map.push(InputMapping::Key { keycode: KeyCode(KEY_SPACE), action: ActionType::Action });
    map.push(InputMapping::Key { keycode: KeyCode(KEY_ENTER), action: ActionType::Action });
    map.push(InputMapping::Key { keycode: KeyCode(KEY_ESCAPE), action: ActionType::Cancel });
    map.push(
        InputMapping::GamepadButton {
            gamepad: None,
            button: GamepadButton(BUTTON_DPAD_UP),
            action: ActionType::Up,
        },
    );
    map.push(
        InputMapping::GamepadButton {
            gamepad: None,
            button: GamepadButton(BUTTON_DPAD_DOWN),
            action: ActionType::Down,
        },
    );
    map.push(
        InputMapping::GamepadButton {
            gamepad: None,
            button: GamepadButton(BUTTON_DPAD_LEFT),
            action: ActionType::Left,
        },
    );
    map.push(
        InputMapping::GamepadButton {
            gamepad: None,
            button: GamepadButton(BUTTON_DPAD_RIGHT),
            action: ActionType::Right,
        },
    );
    map.push(
        InputMapping::GamepadButton {
            gamepad: None,
            button: GamepadButton(BUTTON_SOUTH),
            action: ActionType::Action,
        },
    );
    map.push(
        InputMapping::GamepadButton {
            gamepad: None,
            button: GamepadButton(BUTTON_EAST),
            action: ActionType::Cancel,
        },
    );
    map.push(InputMapping::GamepadAxes { gamepad: None, stick: GamepadStick::Left });
    assert(map@ =~= default_input_map_spec());
    map
}

impl Default for UiNavInputManager {
    fn default() -> (r: Self)
        ensures
            r.input_map@ == default_input_map_spec(),
            r.current() == ActionFlags::none(),
            r.previous() == ActionFlags::none(),
            r.stick_tolerance == DEFAULT_STICK_TOLERANCE,
            r.stick_snap_tolerance == DEFAULT_STICK_SNAP_TOLERANCE,
            r.gamepad == GamepadDevice::Any,
    {
        let map = default_input_map();
        UiNavInputManager::from_input_map(
            &map,
            DEFAULT_STICK_TOLERANCE,
            DEFAULT_STICK_SNAP_TOLERANCE,
        )
    }
}

} // verus!
