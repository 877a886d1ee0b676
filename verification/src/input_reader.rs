use vstd::prelude::*;
use crate::action_state::state_insert;
use crate::input::{
    ActionFlags, ActionType, GamepadButton, GamepadDevice, KeyCode, UiNavInputManager,
};
use crate::seq_util::{first_index, lemma_first_index_at, lemma_first_index_none};
use crate::types::Entity;
use crate::world::at;

verus! {

/// One of the four directions of one of the two sticks of a gamepad.
#[derive(Debug, Clone, Copy, PartialEq, Eq, Hash, Structural)]
pub enum GamepadStick {
    LeftStickUp,
    LeftStickDown,
    LeftStickLeft,
    LeftStickRight,
    RightStickUp,
    RightStickDown,
    RightStickLeft,
    RightStickRight,
}

/// One of the four axes of the two sticks of a gamepad.
#[derive(Debug, Clone, Copy, PartialEq, Eq, Hash, Structural)]
pub enum GamepadAxis {
    LeftStickX,
    LeftStickY,
    RightStickX,
    RightStickY,
}

/// A physical input that can be down or not.
#[derive(Debug, Clone, Copy, PartialEq, Eq, Hash, Structural)]
pub enum Input {
    KeyBoard(KeyCode),
    GamepadButton(GamepadButton),
    GamepadAxis(GamepadStick),
}

/// An input and the action that it stands for.
#[derive(Debug, Clone, Copy, PartialEq, Eq, Hash, Structural)]
pub struct Binding {
    pub action: ActionType,
    pub input: Input,
}

/// How far a button of a gamepad is down.
#[derive(Debug, Clone, Copy, PartialEq, Eq, Structural)]
pub struct ButtonValue {
    pub button: GamepadButton,
    pub value: i32,
}

/// Where an axis of a gamepad stands.
#[derive(Debug, Clone, Copy, PartialEq, Eq, Structural)]
pub struct AxisValue {
    pub axis: GamepadAxis,
    pub value: i32,
}

/// The buttons and axes of a gamepad of which a value is known.
#[derive(Debug)]
pub struct GamepadReading {
    pub entity: Entity,
    pub buttons: Vec<ButtonValue>,
    pub axes: Vec<AxisValue>,
}

/// What the devices show in one frame.
#[derive(Debug)]
pub struct InputReader {
    /// The keys that are down.
    pub keys: Vec<KeyCode>,
    pub gamepads: Vec<GamepadReading>,
    /// The gamepads that are read.
    pub gamepad_device: GamepadDevice,
}

pub open spec fn button_is(button: GamepadButton) -> spec_fn(ButtonValue) -> bool {
    |b: ButtonValue| b.button == button
}

pub open spec fn axis_is(axis: GamepadAxis) -> spec_fn(AxisValue) -> bool {
    |a: AxisValue| a.axis == axis
}

pub open spec fn gamepad_is(entity: Entity) -> spec_fn(GamepadReading) -> bool {
    |g: GamepadReading| g.entity == entity
}

/// The axis that a direction of a stick lies on.
pub open spec fn axis_of(stick: GamepadStick) -> GamepadAxis {
    match stick {
        GamepadStick::LeftStickUp | GamepadStick::LeftStickDown => GamepadAxis::LeftStickY,
        GamepadStick::LeftStickLeft | GamepadStick::LeftStickRight => GamepadAxis::LeftStickX,
        GamepadStick::RightStickUp | GamepadStick::RightStickDown => GamepadAxis::RightStickY,
        GamepadStick::RightStickLeft | GamepadStick::RightStickRight => GamepadAxis::RightStickX,
    }
}

/// Whether a direction of a stick is the one in which the value of its
/// axis is below zero: left and up are, right and down are not.
pub open spec fn is_negative_side(stick: GamepadStick) -> bool {
    match stick {
        GamepadStick::LeftStickLeft | GamepadStick::RightStickLeft | GamepadStick::LeftStickUp
        | GamepadStick::RightStickUp => true,
        _ => false,
    }
}

/// The value of a button, if the gamepad knows one.
pub open spec fn button_value_spec(g: GamepadReading, button: GamepadButton) -> Option<i32> {
    match at(g.buttons@, first_index(g.buttons@, button_is(button))) {
        Some(b) => Some(b.value),
        None => None,
    }
}

/// The value of an axis, if the gamepad knows one.
pub open spec fn axis_value_spec(g: GamepadReading, axis: GamepadAxis) -> Option<i32> {
    match at(g.axes@, first_index(g.axes@, axis_is(axis))) {
        Some(a) => Some(a.value),
        None => None,
    }
}

/// Whether the stick of the gamepad is pushed in the given direction: the
/// value of its axis is known and lies on the side of the direction.
pub open spec fn input_axis_spec(g: GamepadReading, stick: GamepadStick) -> bool {
    match axis_value_spec(g, axis_of(stick)) {
        Some(value) => if is_negative_side(stick) {
            value < 0
        } else {
            value > 0
        },
        None => false,
    }
}

pub open spec fn has_nonzero_button(button: GamepadButton) -> spec_fn(GamepadReading) -> bool {
    |g: GamepadReading| button_value_spec(g, button) matches Some(v) && v != 0
}

pub open spec fn pushes(stick: GamepadStick) -> spec_fn(GamepadReading) -> bool {
    |g: GamepadReading| input_axis_spec(g, stick)
}

impl InputReader {
    /// Whether the input is down. A key is down if it is among the keys
    /// that are down. A button is down if its value is above zero: on the
    /// one gamepad that is read, or, where all are read, on the first
    /// gamepad on which its value is not zero. A direction of a stick is down
    /// if the one gamepad that is read, or any of them where all are read,
    /// pushes its stick that way.
    pub open spec fn value_spec(self, input: Input) -> bool {
        match input {
            Input::KeyBoard(key) => self.keys@.contains(key),
            Input::GamepadButton(button) => match self.gamepad_device {
                GamepadDevice::Any => match at(
                    self.gamepads@,
                    first_index(self.gamepads@, has_nonzero_button(button)),
                ) {
                    Some(g) => button_value_spec(g, button)->0 > 0,
                    None => false,
                },
                GamepadDevice::Single(entity) => match at(
                    self.gamepads@,
                    first_index(self.gamepads@, gamepad_is(entity)),
                ) {
                    Some(g) => button_value_spec(g, button) matches Some(v) && v > 0,
                    None => false,
                },
            },
            Input::GamepadAxis(stick) => match self.gamepad_device {
                GamepadDevice::Any => first_index(self.gamepads@, pushes(stick)) is Some,
                GamepadDevice::Single(entity) => match at(
                    self.gamepads@,
                    first_index(self.gamepads@, gamepad_is(entity)),
                ) {
                    Some(g) => input_axis_spec(g, stick),
                    None => false,
                },
            },
        }
    }

    /// Names the gamepads that are read.
    pub fn set_gamepad(&mut self, gamepad: GamepadDevice)
        ensures
            final(self).gamepad_device == gamepad,
            final(self).keys@ == old(self).keys@,
            final(self).gamepads@ == old(self).gamepads@,
    {
        self.gamepad_device = gamepad;
    }

    fn find_gamepad(&self, entity: Entity) -> (r: Option<usize>)
        ensures
            match r {
                Some(i) => first_index(self.gamepads@, gamepad_is(entity)) == Some(i as int)
                    && i < self.gamepads@.len(),
                None => first_index(self.gamepads@, gamepad_is(entity)) is None,
            },
    {
        let mut i: usize = 0;
        while i < self.gamepads.len()
            invariant
                i <= self.gamepads.len(),
                forall|j: int| 0 <= j < i ==> !gamepad_is(entity)(#[trigger] self.gamepads@[j]),
            decreases self.gamepads.len() - i,
        {
            if self.gamepads[i].entity == entity {
                proof {
                    lemma_first_index_at(self.gamepads@, gamepad_is(entity), i as int);
                }
                return Some(i);
            }
            i += 1;
        }
        proof {
            lemma_first_index_none(self.gamepads@, gamepad_is(entity));
        }
        None
    }

    fn has_key(&self, key: KeyCode) -> (r: bool)
        ensures
            r == self.keys@.contains(key),
    {
        let mut i: usize = 0;
        while i < self.keys.len()
            invariant
                i <= self.keys.len(),
                forall|j: int| 0 <= j < i ==> self.keys@[j] != key,
            decreases self.keys.len() - i,
        {
            if self.keys[i] == key {
                return true;
            }
            i += 1;
        }
        false
    }

    fn any_button(&self, button: GamepadButton) -> (r: bool)
        ensures
            r == match at(self.gamepads@, first_index(self.gamepads@, has_nonzero_button(button))) {
                Some(g) => button_value_spec(g, button)->0 > 0,
                None => false,
            },
    {
        let mut i: usize = 0;
        while i < self.gamepads.len()
            invariant
                i <= self.gamepads.len(),
                forall|j: int|
                    0 <= j < i ==> !has_nonzero_button(button)(#[trigger] self.gamepads@[j]),
            decreases self.gamepads.len() - i,
        {
            if let Some(v) = button_value(&self.gamepads[i], button) {
                if v != 0 {
                    proof {
                        lemma_first_index_at(
                            self.gamepads@,
                            has_nonzero_button(button),
                            i as int,
                        );
                    }
                    return v > 0;
                }
            }
            i += 1;
        }
        proof {
            lemma_first_index_none(self.gamepads@, has_nonzero_button(button));
        }
        false
    }

    fn any_axis(&self, stick: GamepadStick) -> (r: bool)
        ensures
            r == (first_index(self.gamepads@, pushes(stick)) is Some),
    {
        let mut i: usize = 0;
        while i < self.gamepads.len()
            invariant
                i <= self.gamepads.len(),
                forall|j: int| 0 <= j < i ==> !pushes(stick)(#[trigger] self.gamepads@[j]),
            decreases self.gamepads.len() - i,
        {
            if get_input_axis(&self.gamepads[i], stick) {
                proof {
                    lemma_first_index_at(self.gamepads@, pushes(stick), i as int);
                }
                return true;
            }
            i += 1;
        }
        proof {
            lemma_first_index_none(self.gamepads@, pushes(stick));
        }
        false
    }

    /// Tells whether the input is down.
    pub fn value(&self, input: Input) -> (r: bool)
        ensures
            r == self.value_spec(input),
    {
        match input {
            Input::KeyBoard(key) => self.has_key(key),
            Input::GamepadButton(button) => match self.gamepad_device {
                GamepadDevice::Any => self.any_button(button),
                GamepadDevice::Single(entity) => match self.find_gamepad(entity) {
                    Some(i) => match button_value(&self.gamepads[i], button) {
                        Some(v) => v > 0,
                        None => false,
                    },
                    None => false,
                },
            },
            Input::GamepadAxis(stick) => match self.gamepad_device {
                GamepadDevice::Any => self.any_axis(stick),
                GamepadDevice::Single(entity) => match self.find_gamepad(entity) {
                    Some(i) => get_input_axis(&self.gamepads[i], stick),
                    None => false,
                },
            },
        }
    }
}

fn button_value(g: &GamepadReading, button: GamepadButton) -> (r: Option<i32>)
    ensures
        r == button_value_spec(*g, button),
{
    let mut i: usize = 0;
    while i < g.buttons.len()
        invariant
            i <= g.buttons.len(),
            forall|j: int| 0 <= j < i ==> !button_is(button)(#[trigger] g.buttons@[j]),
        decreases g.buttons.len() - i,
    {
        if g.buttons[i].button == button {
            proof {
                lemma_first_index_at(g.buttons@, button_is(button), i as int);
            }
            return Some(g.buttons[i].value);
        }
        i += 1;
    }
    proof {
        lemma_first_index_none(g.buttons@, button_is(button));
    }
    None
}

fn axis_value(g: &GamepadReading, axis: GamepadAxis) -> (r: Option<i32>)
    ensures
        r == axis_value_spec(*g, axis),
{
    let mut i: usize = 0;
    while i < g.axes.len()
        invariant
            i <= g.axes.len(),
            forall|j: int| 0 <= j < i ==> !axis_is(axis)(#[trigger] g.axes@[j]),
        decreases g.axes.len() - i,
    {
        if g.axes[i].axis == axis {
            proof {
                lemma_first_index_at(g.axes@, axis_is(axis), i as int);
            }
            return Some(g.axes[i].value);
        }
        i += 1;
    }
    proof {
        lemma_first_index_none(g.axes@, axis_is(axis));
    }
    None
}

/// Tells whether the stick of the gamepad is pushed in the given
/// direction.
pub fn get_input_axis(gamepad: &GamepadReading, stick: GamepadStick) -> (r: bool)
    ensures
        r == input_axis_spec(*gamepad, stick),
{
    let axis = match stick {
        GamepadStick::LeftStickUp => GamepadAxis::LeftStickY,
        GamepadStick::LeftStickDown => GamepadAxis::LeftStickY,
        GamepadStick::LeftStickLeft => GamepadAxis::LeftStickX,
        GamepadStick::LeftStickRight => GamepadAxis::LeftStickX,
        GamepadStick::RightStickUp => GamepadAxis::RightStickY,
        GamepadStick::RightStickDown => GamepadAxis::RightStickY,
        GamepadStick::RightStickLeft => GamepadAxis::RightStickX,
        GamepadStick::RightStickRight => GamepadAxis::RightStickX,
    };
    match axis_value(gamepad, axis) {
        Some(value) => match stick {
            GamepadStick::LeftStickLeft => value < 0,
            GamepadStick::LeftStickRight => value > 0,
            GamepadStick::RightStickLeft => value < 0,
            GamepadStick::RightStickRight => value > 0,
            GamepadStick::LeftStickUp => value < 0,
            GamepadStick::LeftStickDown => value > 0,
            GamepadStick::RightStickUp => value < 0,
            GamepadStick::RightStickDown => value > 0,
        },
        None => false,
    }
}

/// Whether some input that is bound to the action is down.
pub open spec fn action_down_spec(bindings: Seq<Binding>, reader: InputReader, action: ActionType) -> bool {
    exists|i: int|
        0 <= i < bindings.len() && (#[trigger] bindings[i]).action == action && reader.value_spec(
            bindings[i].input,
        )
}

/// The state of the six actions that the bindings give for what the
/// devices show: an action is pressed if any of its inputs is down.
pub open spec fn read_spec(bindings: Seq<Binding>, reader: InputReader) -> ActionFlags {
    ActionFlags {
        up: action_down_spec(bindings, reader, ActionType::Up),
        down: action_down_spec(bindings, reader, ActionType::Down),
        left: action_down_spec(bindings, reader, ActionType::Left),
        right: action_down_spec(bindings, reader, ActionType::Right),
        action: action_down_spec(bindings, reader, ActionType::Action),
        cancel: action_down_spec(bindings, reader, ActionType::Cancel),
    }
}

fn is_action_down(bindings: &Vec<Binding>, reader: &InputReader, action: ActionType) -> (r: bool)
    ensures
        r == action_down_spec(bindings@, *reader, action),
{
    let mut i: usize = 0;
    while i < bindings.len()
        invariant
            i <= bindings.len(),
            forall|j: int|
                0 <= j < i ==> !((#[trigger] bindings@[j]).action == action && reader.value_spec(
                    bindings@[j].input,
                )),
        decreases bindings.len() - i,
    {
        if bindings[i].action == action && reader.value(bindings[i].input) {
            return true;
        }
        i += 1;
    }
    false
}

impl UiNavInputManager {
    fn read_action(&mut self, bindings: &Vec<Binding>, reader: &InputReader, action: ActionType)
        ensures
            final(self).current() == old(self).current().set(
                action,
                action_down_spec(bindings@, *reader, action),
            ),
            final(self).previous() == old(self).previous(),
            final(self).input_map@ == old(self).input_map@,
            final(self).stick_tolerance == old(self).stick_tolerance,
            final(self).stick_snap_tolerance == old(self).stick_snap_tolerance,
            final(self).gamepad == old(self).gamepad,
    {
        let down = is_action_down(bindings, reader, action);
        state_insert(&mut self.current_state, action.code(), down);
    }

    /// Starts a new frame and reads into it what the devices show: the
    /// state of this frame becomes that of the frame before, and every
    /// action is pressed exactly if one of the inputs bound to it is down.
    pub fn update(&mut self, bindings: &Vec<Binding>, input_reader: &InputReader)
        ensures
            final(self).previous() == old(self).current(),
            final(self).current() == read_spec(bindings@, *input_reader),
            final(self).input_map@ == old(self).input_map@,
            final(self).stick_tolerance == old(self).stick_tolerance,
            final(self).stick_snap_tolerance == old(self).stick_snap_tolerance,
            final(self).gamepad == old(self).gamepad,
    {
        self.reset();
        self.read_action(bindings, input_reader, ActionType::Up);
        self.read_action(bindings, input_reader, ActionType::Down);
        self.read_action(bindings, input_reader, ActionType::Left);
        self.read_action(bindings, input_reader, ActionType::Right);
        self.read_action(bindings, input_reader, ActionType::Action);
        self.read_action(bindings, input_reader, ActionType::Cancel);
    }
}

} // verus!
