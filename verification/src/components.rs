use vstd::prelude::*;
use crate::types::{Entity, FocusState, UiNavDirection};

verus! {

/// The input on a focusable that a pressable answers to.
#[derive(Debug, PartialEq, Eq, Hash, Copy, Clone, Structural)]
pub enum PressableAction {
    Press,
    Left,
    Right,
    Up,
    Down,
}

impl Default for PressableAction {
    fn default() -> (r: Self)
        ensures
            r == PressableAction::Press,
    {
        PressableAction::Press
    }
}

impl PressableAction {
    /// A directional action matches the cardinal direction of its name;
    /// `Press` and the diagonals match nothing.
    pub open spec fn matches_direction_spec(self, direction: UiNavDirection) -> bool {
        ||| self == PressableAction::Left && direction == UiNavDirection::Left
        ||| self == PressableAction::Right && direction == UiNavDirection::Right
        ||| self == PressableAction::Up && direction == UiNavDirection::Up
        ||| self == PressableAction::Down && direction == UiNavDirection::Down
    }

    /// Whether a move in `direction` is an input for this action.
    pub fn matches_direction(&self, direction: UiNavDirection) -> (r: bool)
        ensures
            r == self.matches_direction_spec(direction),
    {
        matches!(
            (*self, direction),
            (PressableAction::Left, UiNavDirection::Left)
                | (PressableAction::Right, UiNavDirection::Right)
                | (PressableAction::Up, UiNavDirection::Up)
                | (PressableAction::Down, UiNavDirection::Down)
        )
    }
}

/// What a pressable shows.
#[derive(Debug, PartialEq, Eq, Hash, Copy, Clone, Structural)]
pub enum PressableState {
    Idle,
    Hovered,
    Pressed,
}

impl Default for PressableState {
    fn default() -> (r: Self)
        ensures
            r == PressableState::Idle,
    {
        PressableState::Idle
    }
}

/// A control inside a focusable that can be pressed on its own: by the
/// pointer, or through its focusable by the input that its action names.
#[derive(Debug, Clone, Copy, PartialEq, Eq, Structural)]
pub struct Pressable {
    pub action: PressableAction,
    pub _is_pressed_interaction: bool,
    pub _is_pressed_focusable: bool,
    pub _is_hover_interaction: bool,
    pub _is_hover_focusable: bool,
}

impl Default for Pressable {
    fn default() -> (r: Self)
        ensures
            r == Pressable::with_action_spec(PressableAction::Press),
    {
        Pressable {
            action: PressableAction::Press,
            _is_pressed_interaction: false,
            _is_pressed_focusable: false,
            _is_hover_interaction: false,
            _is_hover_focusable: false,
        }
    }
}

impl Pressable {
    /// The untouched pressable with the given action.
    pub open spec fn with_action_spec(action: PressableAction) -> Pressable {
        Pressable {
            action,
            _is_pressed_interaction: false,
            _is_pressed_focusable: false,
            _is_hover_interaction: false,
            _is_hover_focusable: false,
        }
    }

    pub open spec fn pressed(self) -> bool {
        self._is_pressed_interaction || self._is_pressed_focusable
    }

    pub open spec fn hovered(self) -> bool {
        self._is_hover_interaction || self._is_hover_focusable
    }

    /// Pressed wins over hovered, hovered over idle.
    pub open spec fn state_spec(self) -> PressableState {
        if self.pressed() {
            PressableState::Pressed
        } else if self.hovered() {
            PressableState::Hovered
        } else {
            PressableState::Idle
        }
    }

    /// Whether the pressable is pressed, by the pointer or through its
    /// focusable.
    pub fn is_pressed(&self) -> (r: bool)
        ensures
            r == self.pressed(),
    {
        self._is_pressed_interaction || self._is_pressed_focusable
    }

    /// Whether the pressable is hovered, by the pointer or through its
    /// focusable.
    pub fn is_hovered(&self) -> (r: bool)
        ensures
            r == self.hovered(),
    {
        self._is_hover_interaction || self._is_hover_focusable
    }

    /// What the pressable shows.
    pub fn state(&self) -> (r: PressableState)
        ensures
            r == self.state_spec(),
    {
        if self.is_pressed() {
            PressableState::Pressed
        } else if self.is_hovered() {
            PressableState::Hovered
        } else {
            PressableState::Idle
        }
    }

    /// A pressable that answers to the action key.
    pub fn new_press() -> (r: Self)
        ensures
            r == Pressable::with_action_spec(PressableAction::Press),
    {
        Pressable { action: PressableAction::Press, ..Pressable::default() }
    }

    /// A pressable that answers to a move to the left.
    pub fn new_left() -> (r: Self)
        ensures
            r == Pressable::with_action_spec(PressableAction::Left),
    {
        Pressable { action: PressableAction::Left, ..Pressable::default() }
    }

    /// A pressable that answers to a move to the right.
    pub fn new_right() -> (r: Self)
        ensures
            r == Pressable::with_action_spec(PressableAction::Right),
    {
        Pressable { action: PressableAction::Right, ..Pressable::default() }
    }
}

/// A menu: a group of focusables of which one can hold the focus.
#[derive(Debug, Clone, Copy, PartialEq, Eq, Structural)]
pub struct NavMenu {
    /// Whether the menu becomes the active one when it is added. Changing
    /// the flag later has no effect.
    pub is_priority: bool,
    /// Whether a move off one edge of the menu comes back in at the other.
    pub is_wrap: bool,
    /// Whether navigation to and from the menu is locked.
    pub is_locked: bool,
}

impl Default for NavMenu {
    fn default() -> (r: Self)
        ensures
            r == (NavMenu { is_priority: false, is_wrap: true, is_locked: false }),
    {
        NavMenu { is_priority: false, is_wrap: true, is_locked: false }
    }
}

impl NavMenu {
    /// An unlocked menu with the given flags.
    pub fn new(is_priority: bool, is_wrap: bool) -> (r: Self)
        ensures
            r == (NavMenu { is_priority, is_wrap, is_locked: false }),
    {
        NavMenu { is_priority, is_wrap, ..NavMenu::default() }
    }

    /// The menu, locked: focus then enters and leaves it only by an explicit
    /// request to set the focus.
    pub fn locked(self) -> (r: Self)
        ensures
            r == (NavMenu { is_locked: true, ..self }),
    {
        let mut menu = self;
        menu.is_locked = true;
        menu
    }

    /// The menu with the given wrap flag.
    pub fn with_wrap(self, is_wrap: bool) -> (r: Self)
        ensures
            r == (NavMenu { is_wrap, ..self }),
    {
        let mut menu = self;
        menu.is_wrap = is_wrap;
        menu
    }

    /// The menu, flagged to take the focus as soon as it is added.
    pub fn prioritized(self) -> (r: Self)
        ensures
            r == (NavMenu { is_priority: true, ..self }),
    {
        let mut menu = self;
        menu.is_priority = true;
        menu
    }
}

/// The inputs that a focusable passes on to its pressables.
#[derive(Debug, Copy, Clone, PartialEq, Eq, Hash, Structural)]
pub enum FocusableAction {
    Press,
    PressXY,
}

impl Default for FocusableAction {
    fn default() -> (r: Self)
        ensures
            r == FocusableAction::Press,
    {
        FocusableAction::Press
    }
}

impl FocusableAction {
    /// `PressXY` matches a move to the left or to the right; `Press` matches
    /// no direction.
    pub open spec fn matches_direction_spec(self, direction: UiNavDirection) -> bool {
        self == FocusableAction::PressXY && (direction == UiNavDirection::Left || direction
            == UiNavDirection::Right)
    }

    /// `PressXY` matches the pressables for left and right, `Press` the one
    /// for the action key.
    pub open spec fn matches_action_spec(self, action: PressableAction) -> bool {
        ||| self == FocusableAction::PressXY && (action == PressableAction::Left || action
            == PressableAction::Right)
        ||| self == FocusableAction::Press && action == PressableAction::Press
    }

    /// Whether the focusable takes a move in `direction` for itself.
    pub fn matches_direction(&self, direction: UiNavDirection) -> (r: bool)
        ensures
            r == self.matches_direction_spec(direction),
    {
        matches!(
            (*self, direction),
            (FocusableAction::PressXY, UiNavDirection::Left)
                | (FocusableAction::PressXY, UiNavDirection::Right)
        )
    }

    /// Whether the focusable drives a pressable with the given action.
    pub fn matches_action(&self, action: PressableAction) -> (r: bool)
        ensures
            r == self.matches_action_spec(action),
    {
        matches!(
            (*self, action),
            (FocusableAction::PressXY, PressableAction::Left)
                | (FocusableAction::PressXY, PressableAction::Right)
                | (FocusableAction::Press, PressableAction::Press)
        )
    }
}

/// An element that can hold the focus.
#[derive(Debug, Clone, Copy, PartialEq, Eq, Structural)]
pub struct Focusable {
    /// The inputs that the focusable passes on to its pressables.
    pub action: FocusableAction,
    /// The menu that the focusable belongs to, once it has been found.
    pub menu: Option<Entity>,
    /// Pressed by the action key.
    pub is_pressed_key: bool,
    /// Takes the focus when it is added.
    pub is_priority: bool,
    /// Under the pointer.
    pub is_hovered_interaction: bool,
    /// Pressed by the pointer.
    pub is_pressed_interaction: bool,
    /// The press by the pointer began while no other focusable was pressed.
    pub is_pressed_interaction_from_active: bool,
    /// Disabled: takes neither focus nor clicks.
    pub is_disabled: bool,
    /// Holds the focus.
    pub is_focused: bool,
    /// Reacts to the pointer only and stays out of directional navigation.
    pub is_mouse_only: bool,
    /// Shown with some area, as of the last layout.
    pub is_visible: bool,
}

impl Default for Focusable {
    fn default() -> (r: Self)
        ensures
            r == Focusable::blank(),
    {
        Focusable {
            action: FocusableAction::Press,
            menu: None,
            is_pressed_key: false,
            is_priority: false,
            is_hovered_interaction: false,
            is_pressed_interaction: false,
            is_pressed_interaction_from_active: false,
            is_disabled: false,
            is_focused: false,
            is_mouse_only: false,
            is_visible: false,
        }
    }
}

impl Focusable {
    /// The focusable with every flag down, no menu and the action `Press`.
    pub open spec fn blank() -> Focusable {
        Focusable {
            action: FocusableAction::Press,
            menu: None,
            is_pressed_key: false,
            is_priority: false,
            is_hovered_interaction: false,
            is_pressed_interaction: false,
            is_pressed_interaction_from_active: false,
            is_disabled: false,
            is_focused: false,
            is_mouse_only: false,
            is_visible: false,
        }
    }

    /// Focused and enabled.
    pub open spec fn is_active(self) -> bool {
        !self.is_disabled && self.is_focused
    }

    /// Active and held down by the action key.
    pub open spec fn pressed(self) -> bool {
        self.is_active() && self.is_pressed_key
    }

    /// Under the pointer and enabled.
    pub open spec fn hovered(self) -> bool {
        self.is_hovered_interaction && !self.is_disabled
    }

    /// Disabled wins over pressed, pressed over focused.
    pub open spec fn state_spec(self) -> FocusState {
        if self.is_disabled {
            FocusState::Disabled
        } else if self.pressed() {
            FocusState::FocusPress
        } else if self.is_focused {
            FocusState::Focus
        } else {
            FocusState::Unfocused
        }
    }

    /// A focusable that takes the focus when it is added.
    pub fn prioritized() -> (r: Self)
        ensures
            r == (Focusable { is_priority: true, ..Focusable::blank() }),
    {
        Focusable { is_priority: true, ..Focusable::default() }
    }

    /// The focusable with the given action.
    pub fn with_action(self, action: FocusableAction) -> (r: Self)
        ensures
            r == (Focusable { action, ..self }),
    {
        let mut focusable = self;
        focusable.action = action;
        focusable
    }

    /// The focusable, disabled.
    pub fn disabled(self) -> (r: Self)
        ensures
            r == (Focusable { is_disabled: true, ..self }),
    {
        let mut focusable = self;
        focusable.is_disabled = true;
        focusable
    }

    /// The focusable, disabled or not.
    pub fn with_disabled(self, disabled: bool) -> (r: Self)
        ensures
            r == (Focusable { is_disabled: disabled, ..self }),
    {
        let mut focusable = self;
        focusable.is_disabled = disabled;
        focusable
    }

    /// The focusable, with or without priority.
    pub fn with_priority(self, prioritized: bool) -> (r: Self)
        ensures
            r == (Focusable { is_priority: prioritized, ..self }),
    {
        let mut focusable = self;
        focusable.is_priority = prioritized;
        focusable
    }

    /// The focus state of the focusable.
    pub fn state(&self) -> (r: FocusState)
        ensures
            r == self.state_spec(),
    {
        if self.is_disabled {
            FocusState::Disabled
        } else if self.is_pressed() {
            FocusState::FocusPress
        } else if self.is_focused {
            FocusState::Focus
        } else {
            FocusState::Unfocused
        }
    }

    /// Whether the focusable holds the focus and is enabled.
    pub fn active(&self) -> (r: bool)
        ensures
            r == self.is_active(),
    {
        !self.is_disabled && self.is_focused
    }

    /// Whether the focusable is held down by the action key.
    pub fn is_pressed(&self) -> (r: bool)
        ensures
            r == self.pressed(),
    {
        self.active() && self.is_pressed_key
    }

    /// Whether the focusable is under the pointer.
    pub fn is_hovered(&self) -> (r: bool)
        ensures
            r == self.hovered(),
    {
        self.is_hovered_interaction && !self.is_disabled
    }

    /// Enables the focusable.
    pub fn enable(&mut self)
        ensures
            *final(self) == (Focusable { is_disabled: false, ..*old(self) }),
    {
        self.is_disabled = false;
    }

    /// Disables the focusable.
    pub fn disable(&mut self)
        ensures
            *final(self) == (Focusable { is_disabled: true, ..*old(self) }),
    {
        self.is_disabled = true;
    }
}

} // verus!
