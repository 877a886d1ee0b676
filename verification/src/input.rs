use vstd::prelude::*;
use crate::action_state::{
    state_clone_from, state_entries, state_get, state_insert, state_new, StateMap,
};
use crate::seq_util::{lemma_take_all, lemma_take_step};
use crate::types::{Entity, PressType, UiNavDirection};
use crate::utils::Vec2;

verus! {

/// What an input can mean to the navigation.
#[derive(Debug, Clone, Copy, PartialEq, Eq, Hash, Structural)]
pub enum ActionType {
    Up,
    Down,
    Left,
    Right,
    Action,
    Cancel,
}

impl ActionType {
    /// The direction of a directional action.
    pub open spec fn direction_spec(self) -> Option<UiNavDirection> {
        match self {
            ActionType::Up => Some(UiNavDirection::Up),
            ActionType::Down => Some(UiNavDirection::Down),
            ActionType::Left => Some(UiNavDirection::Left),
            ActionType::Right => Some(UiNavDirection::Right),
            _ => None,
        }
    }

    /// The number under which the state of the action is kept.
    pub open spec fn code_spec(self) -> u8 {
        match self {
            ActionType::Up => 0u8,
            ActionType::Down => 1u8,
            ActionType::Left => 2u8,
            ActionType::Right => 3u8,
            ActionType::Action => 4u8,
            ActionType::Cancel => 5u8,
        }
    }

    /// The direction that the action stands for, if it stands for one.
    pub fn to_direction(&self) -> (r: Option<UiNavDirection>)
        ensures
            r == self.direction_spec(),
    {
        match self {
            ActionType::Up => Some(UiNavDirection::Up),
            ActionType::Down => Some(UiNavDirection::Down),
            ActionType::Left => Some(UiNavDirection::Left),
            ActionType::Right => Some(UiNavDirection::Right),
            _ => None,
        }
    }

    /// The number under which the state of the action is kept.
    pub fn code(&self) -> (r: u8)
        ensures
            r == self.code_spec(),
    {
        match self {
            ActionType::Up => 0,
            ActionType::Down => 1,
            ActionType::Left => 2,
            ActionType::Right => 3,
            ActionType::Action => 4,
            ActionType::Cancel => 5,
        }
    }
}

/// One of the two sticks of a gamepad.
#[derive(Debug, Clone, Copy, PartialEq, Eq, Hash, Structural)]
pub enum GamepadStick {
    Left,
    Right,
}

/// A key of the keyboard, by its number.
#[derive(Debug, Clone, Copy, PartialEq, Eq, Hash, Structural)]
pub struct KeyCode(pub u32);

/// A button of a gamepad, by its number.
#[derive(Debug, Clone, Copy, PartialEq, Eq, Hash, Structural)]
pub struct GamepadButton(pub u32);

/// The gamepads that the input manager listens to.
#[derive(Clone, Copy, Debug, Hash, PartialEq, Eq, Structural)]
pub enum GamepadDevice {
    /// Every gamepad.
    Any,
    /// One gamepad.
    Single(Entity),
}

impl Default for GamepadDevice {
    fn default() -> (r: Self)
        ensures
            r == GamepadDevice::Any,
    {
        GamepadDevice::Any
    }
}

impl From<Entity> for GamepadDevice {
    fn from(value: Entity) -> (r: Self) {
        GamepadDevice::Single(value)
    }
}

impl vstd::std_specs::convert::FromSpecImpl<Entity> for GamepadDevice {
    open spec fn obeys_from_spec() -> bool {
        true
    }

    open spec fn from_spec(value: Entity) -> Self {
        GamepadDevice::Single(value)
    }
}

/// One line of the input map: a physical input and what it means.
#[derive(Debug, Clone, Copy, PartialEq, Eq, Hash, Structural)]
pub enum InputMapping {
    Key { keycode: KeyCode, action: ActionType },
    GamepadButton { gamepad: Option<Entity>, button: GamepadButton, action: ActionType },
    GamepadAxes { gamepad: Option<Entity>, stick: GamepadStick },
}

/// What is read of one gamepad in a frame. The sticks are in units of a
/// ten-thousandth of the full deflection; up and right are positive.
#[derive(Debug)]
pub struct GamepadState {
    pub entity: Entity,
    /// The buttons that are down.
    pub pressed: Vec<GamepadButton>,
    pub left_stick: Vec2,
    pub right_stick: Vec2,
}

/// Which actions are pressed.
#[derive(Debug, Clone, Copy, PartialEq, Eq, Structural)]
pub struct ActionFlags {
    pub up: bool,
    pub down: bool,
    pub left: bool,
    pub right: bool,
    pub action: bool,
    pub cancel: bool,
}

impl ActionFlags {
    /// No action is pressed.
    pub open spec fn none() -> ActionFlags {
        ActionFlags {
            up: false,
            down: false,
            left: false,
            right: false,
            action: false,
            cancel: false,
        }
    }

    pub open spec fn get(self, action: ActionType) -> bool {
        match action {
            ActionType::Up => self.up,
            ActionType::Down => self.down,
            ActionType::Left => self.left,
            ActionType::Right => self.right,
            ActionType::Action => self.action,
            ActionType::Cancel => self.cancel,
        }
    }

    pub open spec fn set(self, action: ActionType, value: bool) -> ActionFlags {
        match action {
            ActionType::Up => ActionFlags { up: value, ..self },
            ActionType::Down => ActionFlags { down: value, ..self },
            ActionType::Left => ActionFlags { left: value, ..self },
            ActionType::Right => ActionFlags { right: value, ..self },
            ActionType::Action => ActionFlags { action: value, ..self },
            ActionType::Cancel => ActionFlags { cancel: value, ..self },
        }
    }

    /// The one direction that the four directional flags give: a diagonal
    /// where two neighbouring ones are pressed, with down before up and left
    /// before right; nothing where none is pressed.
    pub open spec fn direction(self) -> Option<UiNavDirection> {
        if self.down && self.left {
            Some(UiNavDirection::DownLeft)
        } else if self.down && self.right {
            Some(UiNavDirection::DownRight)
        } else if self.up && self.left {
            Some(UiNavDirection::UpLeft)
        } else if self.up && self.right {
            Some(UiNavDirection::UpRight)
        } else if self.down {
            Some(UiNavDirection::Down)
        } else if self.up {
            Some(UiNavDirection::Up)
        } else if self.left {
            Some(UiNavDirection::Left)
        } else if self.right {
            Some(UiNavDirection::Right)
        } else {
            None
        }
    }
}

/// Whether the entries say that the action with the given code is pressed:
/// an action without an entry is not.
pub open spec fn entry_set(entries: Map<u8, bool>, code: u8) -> bool {
    entries.contains_key(code) && entries[code]
}

/// The flags that a map of entries stands for.
pub open spec fn flags_of(entries: Map<u8, bool>) -> ActionFlags {
    ActionFlags {
        up: entry_set(entries, 0),
        down: entry_set(entries, 1),
        left: entry_set(entries, 2),
        right: entry_set(entries, 3),
        action: entry_set(entries, 4),
        cancel: entry_set(entries, 5),
    }
}

/// Whether a gamepad is read for a line of the input map: the line names
/// it or names none, and the manager listens to it.
pub open spec fn reads(gamepad: Option<Entity>, device: GamepadDevice, entity: Entity) -> bool {
    (gamepad is None || gamepad == Some(entity)) && (device is Any || device == GamepadDevice::Single(
        entity,
    ))
}

/// Whether some gamepad that is read has the button down.
pub open spec fn button_down_spec(
    gamepads: Seq<GamepadState>,
    gamepad: Option<Entity>,
    device: GamepadDevice,
    button: GamepadButton,
) -> bool {
    exists|i: int|
        0 <= i < gamepads.len() && reads(gamepad, device, (#[trigger] gamepads[i]).entity)
            && gamepads[i].pressed@.contains(button)
}

/// The raw value of one stick.
pub open spec fn stick_of(g: GamepadState, stick: GamepadStick) -> Vec2 {
    match stick {
        GamepadStick::Left => g.left_stick,
        GamepadStick::Right => g.right_stick,
    }
}

pub open spec fn abs_of(v: int) -> int {
    if v < 0 { -v } else { v }
}

/// The value of a stick after the dead zone and the snap. A component
/// that does not exceed `tolerance` counts as zero. Where both exceed it and
/// differ in size by less than `snap`, the smaller one counts as zero, and
/// where they are equal in size, the x component does.
pub open spec fn gamepad_axes_spec(raw: Vec2, tolerance: i32, snap: i32) -> Vec2 {
    let abs_x = abs_of(raw.x as int);
    let abs_y = abs_of(raw.y as int);
    let x = if abs_x > tolerance { raw.x } else { 0i32 };
    let y = if abs_y > tolerance { raw.y } else { 0i32 };
    if abs_x > tolerance && abs_y > tolerance && abs_of(abs_x - abs_y) < snap {
        if abs_x > abs_y {
            Vec2 { x, y: 0 }
        } else {
            Vec2 { x: 0, y }
        }
    } else {
        Vec2 { x, y }
    }
}

/// The squared length of a vector.
pub open spec fn length_sq(v: Vec2) -> int {
    v.x * v.x + v.y * v.y
}

/// The longest stick value among the gamepads that are read, the first
/// of them where several are equally long; zero where none is read.
pub open spec fn strongest_axes_spec(
    gamepads: Seq<GamepadState>,
    gamepad: Option<Entity>,
    device: GamepadDevice,
    stick: GamepadStick,
    tolerance: i32,
    snap: i32,
) -> Vec2
    decreases gamepads.len(),
{
    if gamepads.len() == 0 {
        Vec2 { x: 0, y: 0 }
    } else {
        let acc = strongest_axes_spec(
            gamepads.drop_last(),
            gamepad,
            device,
            stick,
            tolerance,
            snap,
        );
        let g = gamepads.last();
        if reads(gamepad, device, g.entity) {
            let e = gamepad_axes_spec(stick_of(g, stick), tolerance, snap);
            if length_sq(e) > length_sq(acc) {
                e
            } else {
                acc
            }
        } else {
            acc
        }
    }
}

/// The flags after a stick value has been read: right or left where x
/// exceeds the tolerance, up or down where y does.
pub open spec fn apply_axes_spec(flags: ActionFlags, axes: Vec2, tolerance: i32) -> ActionFlags {
    let after_x = if axes.x > tolerance {
        flags.set(ActionType::Right, true)
    } else if axes.x < -tolerance {
        flags.set(ActionType::Left, true)
    } else {
        flags
    };
    if axes.y > tolerance {
        after_x.set(ActionType::Up, true)
    } else if axes.y < -tolerance {
        after_x.set(ActionType::Down, true)
    } else {
        after_x
    }
}

/// The flags after one line of the input map has been read from the
/// gamepads. A line for a key reads nothing here.
pub open spec fn apply_mapping_spec(
    flags: ActionFlags,
    mapping: InputMapping,
    gamepads: Seq<GamepadState>,
    device: GamepadDevice,
    tolerance: i32,
    snap: i32,
) -> ActionFlags {
    match mapping {
        InputMapping::GamepadButton { gamepad, button, action } => if button_down_spec(
            gamepads,
            gamepad,
            device,
            button,
        ) {
            flags.set(action, true)
        } else {
            flags
        },
        InputMapping::GamepadAxes { gamepad, stick } => apply_axes_spec(
            flags,
            strongest_axes_spec(gamepads, gamepad, device, stick, tolerance, snap),
            tolerance,
        ),
        InputMapping::Key { .. } => flags,
    }
}

/// The flags after the lines of the input map have been read from the
/// gamepads, in their order.
pub open spec fn apply_mappings_spec(
    flags: ActionFlags,
    mappings: Seq<InputMapping>,
    gamepads: Seq<GamepadState>,
    device: GamepadDevice,
    tolerance: i32,
    snap: i32,
) -> ActionFlags
    decreases mappings.len(),
{
    if mappings.len() == 0 {
        flags
    } else {
        apply_mapping_spec(
            apply_mappings_spec(flags, mappings.drop_last(), gamepads, device, tolerance, snap),
            mappings.last(),
            gamepads,
            device,
            tolerance,
            snap,
        )
    }
}

/// The default dead zone of a stick: a tenth of the full deflection.
pub const DEFAULT_STICK_TOLERANCE: i32 = 1_000;

/// The default snap of a stick: nine tenths of the full deflection.
pub const DEFAULT_STICK_SNAP_TOLERANCE: i32 = 9_000;

/// Turns what the devices show into the state of the six actions, frame
/// by frame.
pub struct UiNavInputManager {
    pub input_map: Vec<InputMapping>,
    pub current_state: StateMap,
    pub previous_state: StateMap,
    pub stick_tolerance: i32,
    pub stick_snap_tolerance: i32,
    pub gamepad: GamepadDevice,
}

fn set_state(state: &mut StateMap, action: ActionType, value: bool)
    ensures
        flags_of(state_entries(*final(state))) == flags_of(state_entries(*old(state))).set(
            action,
            value,
        ),
{
    state_insert(state, action.code(), value);
}

fn clear_state(state: &mut StateMap, action: ActionType)
    ensures
        flags_of(state_entries(*final(state))) == flags_of(state_entries(*old(state))).set(
            action,
            false,
        ),
{
    if state_get(state, action.code()).is_some() {
        state_insert(state, action.code(), false);
    }
}

fn get_state(state: &StateMap, action: ActionType) -> (r: bool)
    ensures
        r == flags_of(state_entries(*state)).get(action),
{
    match state_get(state, action.code()) {
        Some(v) => v,
        None => false,
    }
}

fn is_read(gamepad: Option<Entity>, device: GamepadDevice, entity: Entity) -> (r: bool)
    ensures
        r == reads(gamepad, device, entity),
{
    let named: bool = match gamepad {
        Some(g) => g == entity,
        None => true,
    };
    let heard: bool = match device {
        GamepadDevice::Any => true,
        GamepadDevice::Single(d) => d == entity,
    };
    named && heard
}

fn has_button(pressed: &Vec<GamepadButton>, button: GamepadButton) -> (r: bool)
    ensures
        r == pressed@.contains(button),
{
    let mut i: usize = 0;
    while i < pressed.len()
        invariant
            i <= pressed.len(),
            forall|j: int| 0 <= j < i ==> pressed@[j] != button,
        decreases pressed.len() - i,
    {
        if pressed[i] == button {
            return true;
        }
        i += 1;
    }
    false
}

fn is_button_down(
    gamepads: &Vec<GamepadState>,
    gamepad: Option<Entity>,
    device: GamepadDevice,
    button: GamepadButton,
) -> (r: bool)
    ensures
        r == button_down_spec(gamepads@, gamepad, device, button),
{
    let mut i: usize = 0;
    while i < gamepads.len()
        invariant
            i <= gamepads.len(),
            forall|j: int|
                0 <= j < i ==> !(reads(gamepad, device, (#[trigger] gamepads@[j]).entity)
                    && gamepads@[j].pressed@.contains(button)),
        decreases gamepads.len() - i,
    {
        if is_read(gamepad, device, gamepads[i].entity) && has_button(&gamepads[i].pressed, button) {
            return true;
        }
        i += 1;
    }
    false
}

fn abs_i32(v: i32) -> (r: i64)
    ensures
        r == abs_of(v as int),
{
    if v < 0 {
        -(v as i64)
    } else {
        v as i64
    }
}

/// Reads one stick of a gamepad and applies the dead zone and the snap.
pub fn get_gamepad_axes(
    gamepad: &GamepadState,
    stick: GamepadStick,
    stick_tolerance: i32,
    stick_snap_tolerance: i32,
) -> (r: Vec2)
    ensures
        r == gamepad_axes_spec(stick_of(*gamepad, stick), stick_tolerance, stick_snap_tolerance),
{
    let axes: Vec2 = match stick {
        GamepadStick::Left => gamepad.left_stick,
        GamepadStick::Right => gamepad.right_stick,
    };
    let abs_x: i64 = abs_i32(axes.x);
    let abs_y: i64 = abs_i32(axes.y);
    let tolerance: i64 = stick_tolerance as i64;
    let mut result = Vec2::new(
        if abs_x > tolerance { axes.x } else { 0 },
        if abs_y > tolerance { axes.y } else { 0 },
    );
    let gap: i64 = if abs_x >= abs_y { abs_x - abs_y } else { abs_y - abs_x };
    if abs_x > tolerance && abs_y > tolerance && gap < stick_snap_tolerance as i64 {
        if abs_x > abs_y {
            result.y = 0;
        } else {
            result.x = 0;
        }
    }
    result
}

fn vec_length_sq(v: Vec2) -> (r: i128)
    ensures
        r == length_sq(v),
{
    let x: i128 = v.x as i128;
    let y: i128 = v.y as i128;
    assert(0 <= x * x <= 0x1_0000_0000_0000_0000) by (nonlinear_arith)
        requires
            -0x8000_0000 <= x <= 0x8000_0000,
    ;
    assert(0 <= y * y <= 0x1_0000_0000_0000_0000) by (nonlinear_arith)
        requires
            -0x8000_0000 <= y <= 0x8000_0000,
    ;
    x * x + y * y
}

fn strongest_axes(
    gamepads: &Vec<GamepadState>,
    gamepad: Option<Entity>,
    device: GamepadDevice,
    stick: GamepadStick,
    tolerance: i32,
    snap: i32,
) -> (r: Vec2)
    ensures
        r == strongest_axes_spec(gamepads@, gamepad, device, stick, tolerance, snap),
{
    let mut acc = Vec2::new(0, 0);
    let mut i: usize = 0;
    while i < gamepads.len()
        invariant
            i <= gamepads.len(),
            acc == strongest_axes_spec(
                gamepads@.take(i as int),
                gamepad,
                device,
                stick,
                tolerance,
                snap,
            ),
        decreases gamepads.len() - i,
    {
        proof {
            lemma_take_step(gamepads@, i as int);
        }
        if is_read(gamepad, device, gamepads[i].entity) {
            let e = get_gamepad_axes(&gamepads[i], stick, tolerance, snap);
            if vec_length_sq(e) > vec_length_sq(acc) {
                acc = e;
            }
        }
        i += 1;
    }
    proof {
        lemma_take_all(gamepads@);
    }
    acc
}

impl UiNavInputManager {
    /// Which actions are pressed in this frame.
    pub open spec fn current(&self) -> ActionFlags {
        flags_of(state_entries(self.current_state))
    }

    /// Which actions were pressed in the frame before.
    pub open spec fn previous(&self) -> ActionFlags {
        flags_of(state_entries(self.previous_state))
    }

    /// Gone down in this frame, or come up in it, or neither.
    pub open spec fn press_type_spec(&self, action: ActionType) -> Option<PressType> {
        if self.current().get(action) && !self.previous().get(action) {
            Some(PressType::Press)
        } else if !self.current().get(action) && self.previous().get(action) {
            Some(PressType::Release)
        } else {
            None
        }
    }

    /// A manager with the given input map and tolerances, which listens to
    /// every gamepad and has seen no action pressed.
    pub fn from_input_map(
        input_map: &Vec<InputMapping>,
        stick_tolerance: i32,
        stick_snap_tolerance: i32,
    ) -> (r: Self)
        ensures
            r.input_map@ == input_map@,
            r.current() == ActionFlags::none(),
            r.previous() == ActionFlags::none(),
            r.stick_tolerance == stick_tolerance,
            r.stick_snap_tolerance == stick_snap_tolerance,
            r.gamepad == GamepadDevice::Any,
    {
        let mut map: Vec<InputMapping> = Vec::new();
        let mut i: usize = 0;
        while i < input_map.len()
            invariant
                i <= input_map.len(),
                map@ == input_map@.take(i as int),
            decreases input_map.len() - i,
        {
            map.push(input_map[i]);
            assert(map@ =~= input_map@.take(i + 1));
            i += 1;
        }
        proof {
            lemma_take_all(input_map@);
        }
        UiNavInputManager {
            input_map: map,
            current_state: state_new(),
            previous_state: state_new(),
            stick_tolerance,
            stick_snap_tolerance,
            gamepad: GamepadDevice::Any,
        }
    }

    /// Sets the gamepads that the manager listens to.
    pub fn set_gamepad(&mut self, gamepad: GamepadDevice)
        ensures
            final(self).gamepad == gamepad,
            final(self).input_map@ == old(self).input_map@,
            final(self).current() == old(self).current(),
            final(self).previous() == old(self).previous(),
            final(self).stick_tolerance == old(self).stick_tolerance,
            final(self).stick_snap_tolerance == old(self).stick_snap_tolerance,
    {
        self.gamepad = gamepad;
    }

    /// Makes this frame the frame before, and starts a frame in which no
    /// action is pressed.
    pub fn reset(&mut self)
        ensures
            final(self).previous() == old(self).current(),
            final(self).current() == ActionFlags::none(),
            final(self).input_map@ == old(self).input_map@,
            final(self).stick_tolerance == old(self).stick_tolerance,
            final(self).stick_snap_tolerance == old(self).stick_snap_tolerance,
            final(self).gamepad == old(self).gamepad,
    {
        state_clone_from(&mut self.previous_state, &self.current_state);
        clear_state(&mut self.current_state, ActionType::Up);
        clear_state(&mut self.current_state, ActionType::Down);
        clear_state(&mut self.current_state, ActionType::Left);
        clear_state(&mut self.current_state, ActionType::Right);
        clear_state(&mut self.current_state, ActionType::Action);
        clear_state(&mut self.current_state, ActionType::Cancel);
    }

    /// Whether the action is pressed in this frame.
    pub fn pressed(&self, action: ActionType) -> (r: bool)
        ensures
            r == self.current().get(action),
    {
        get_state(&self.current_state, action)
    }

    /// Whether the action was pressed in the frame before.
    pub fn was_pressed(&self, action: ActionType) -> (r: bool)
        ensures
            r == self.previous().get(action),
    {
        get_state(&self.previous_state, action)
    }

    /// Whether the action went down in this frame.
    pub fn just_pressed(&self, action: ActionType) -> (r: bool)
        ensures
            r == (self.current().get(action) && !self.previous().get(action)),
    {
        self.pressed(action) && !self.was_pressed(action)
    }

    /// Whether the action came up in this frame.
    pub fn just_released(&self, action: ActionType) -> (r: bool)
        ensures
            r == (!self.current().get(action) && self.previous().get(action)),
    {
        !self.pressed(action) && self.was_pressed(action)
    }

    /// The direction that is held in this frame.
    pub fn direction(&self) -> (r: Option<UiNavDirection>)
        ensures
            r == self.current().direction(),
    {
        Self::compute_direction(&self.current_state)
    }

    /// The direction that was held in the frame before.
    pub fn previous_direction(&self) -> (r: Option<UiNavDirection>)
        ensures
            r == self.previous().direction(),
    {
        Self::compute_direction(&self.previous_state)
    }

    /// Whether a direction was held in the frame before and none is now.
    pub fn is_direction_released(&self) -> (r: bool)
        ensures
            r == (self.previous().direction() is Some && self.current().direction() is None),
    {
        self.previous_direction().is_some() && self.direction().is_none()
    }

    /// The one direction that the four directional actions of `state` give.
    pub fn compute_direction(state: &StateMap) -> (r: Option<UiNavDirection>)
        ensures
            r == flags_of(state_entries(*state)).direction(),
    {
        let left: bool = get_state(state, ActionType::Left);
        let right: bool = get_state(state, ActionType::Right);
        let up: bool = get_state(state, ActionType::Up);
        let down: bool = get_state(state, ActionType::Down);
        if down && left {
            Some(UiNavDirection::DownLeft)
        } else if down && right {
            Some(UiNavDirection::DownRight)
        } else if up && left {
            Some(UiNavDirection::UpLeft)
        } else if up && right {
            Some(UiNavDirection::UpRight)
        } else if down {
            Some(UiNavDirection::Down)
        } else if up {
            Some(UiNavDirection::Up)
        } else if left {
            Some(UiNavDirection::Left)
        } else if right {
            Some(UiNavDirection::Right)
        } else {
            None
        }
    }

    /// Whether the action went down or came up in this frame.
    pub fn get_press_type(&self, action: ActionType) -> (r: Option<PressType>)
        ensures
            r == self.press_type_spec(action),
    {
        if self.just_pressed(action) {
            Some(PressType::Press)
        } else if self.just_released(action) {
            Some(PressType::Release)
        } else {
            None
        }
    }
}

fn apply_axes(state: &mut StateMap, axes: Vec2, tolerance: i32)
    ensures
        flags_of(state_entries(*final(state))) == apply_axes_spec(
            flags_of(state_entries(*old(state))),
            axes,
            tolerance,
        ),
{
    let x: i64 = axes.x as i64;
    let y: i64 = axes.y as i64;
    let t: i64 = tolerance as i64;
    if x > t {
        set_state(state, ActionType::Right, true);
    } else if x < -t {
        set_state(state, ActionType::Left, true);
    }
    if y > t {
        set_state(state, ActionType::Up, true);
    } else if y < -t {
        set_state(state, ActionType::Down, true);
    }
}

/// Starts a new frame and reads the gamepads into it: the state of this
/// frame becomes that of the frame before, and every line of the input map
/// for a button or a stick sets the actions that the gamepads hold down.
pub fn update_input_manager(input: &mut UiNavInputManager, gamepads: &Vec<GamepadState>)
    ensures
        final(input).previous() == old(input).current(),
        final(input).current() == apply_mappings_spec(
            ActionFlags::none(),
            old(input).input_map@,
            gamepads@,
            old(input).gamepad,
            old(input).stick_tolerance,
            old(input).stick_snap_tolerance,
        ),
        final(input).input_map@ == old(input).input_map@,
        final(input).stick_tolerance == old(input).stick_tolerance,
        final(input).stick_snap_tolerance == old(input).stick_snap_tolerance,
        final(input).gamepad == old(input).gamepad,
{
    input.reset();
    let ghost before = *input;
    let mut i: usize = 0;
    while i < input.input_map.len()
        invariant
            i <= input.input_map.len(),
            input.input_map@ == before.input_map@,
            input.previous() == before.previous(),
            input.stick_tolerance == before.stick_tolerance,
            input.stick_snap_tolerance == before.stick_snap_tolerance,
            input.gamepad == before.gamepad,
            input.current() == apply_mappings_spec(
                ActionFlags::none(),
                before.input_map@.take(i as int),
                gamepads@,
                before.gamepad,
                before.stick_tolerance,
                before.stick_snap_tolerance,
            ),
        decreases input.input_map.len() - i,
    {
        proof {
            lemma_take_step(before.input_map@, i as int);
        }
        let mapping = input.input_map[i];
        match mapping {
            InputMapping::GamepadButton { gamepad, button, action } => {
                if is_button_down(gamepads, gamepad, input.gamepad, button) {
                    set_state(&mut input.current_state, action, true);
                }
            },
            InputMapping::GamepadAxes { gamepad, stick } => {
                let axes = strongest_axes(
                    gamepads,
                    gamepad,
                    input.gamepad,
                    stick,
                    input.stick_tolerance,
                    input.stick_snap_tolerance,
                );
                apply_axes(&mut input.current_state, axes, input.stick_tolerance);
            },
            InputMapping::Key { .. } => {},
        }
        i += 1;
    }
    proof {
        lemma_take_all(before.input_map@);
    }
}

/// No direction is held exactly when none of the four directional
/// actions is pressed.
pub proof fn lemma_direction_none_iff(flags: ActionFlags)
    ensures
        flags.direction() is None <==> !flags.up && !flags.down && !flags.left && !flags.right,
{
}

/// A direction is diagonal exactly when an action of each axis is
/// pressed.
pub proof fn lemma_direction_diagonal_iff(flags: ActionFlags)
    ensures
        (flags.up || flags.down) && (flags.left || flags.right) <==> (flags.direction() == Some(
            UiNavDirection::UpLeft,
        ) || flags.direction() == Some(UiNavDirection::UpRight) || flags.direction() == Some(
            UiNavDirection::DownLeft,
        ) || flags.direction() == Some(UiNavDirection::DownRight)),
{
}

/// After the dead zone and the snap, each component of a stick value is
/// the raw component or zero, it is zero where the raw component does not
/// exceed the tolerance, and where the snap is larger than any difference
/// of the two components at most one of them is left.
pub proof fn lemma_gamepad_axes(raw: Vec2, tolerance: i32, snap: i32)
    ensures
        gamepad_axes_spec(raw, tolerance, snap).x == raw.x || gamepad_axes_spec(
            raw,
            tolerance,
            snap,
        ).x == 0,
        gamepad_axes_spec(raw, tolerance, snap).y == raw.y || gamepad_axes_spec(
            raw,
            tolerance,
            snap,
        ).y == 0,
        abs_of(raw.x as int) <= tolerance ==> gamepad_axes_spec(raw, tolerance, snap).x == 0,
        abs_of(raw.y as int) <= tolerance ==> gamepad_axes_spec(raw, tolerance, snap).y == 0,
        abs_of(abs_of(raw.x as int) - abs_of(raw.y as int)) < snap ==> gamepad_axes_spec(
            raw,
            tolerance,
            snap,
        ).x == 0 || gamepad_axes_spec(raw, tolerance, snap).y == 0,
{
}

} // verus!
