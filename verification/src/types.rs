use vstd::prelude::*;

verus! {

/// The identity of a menu, a focusable or a pressable: an opaque number that
/// is only ever compared.
pub type Entity = u64;

/// Where a change of focus came from.
#[derive(Debug, Clone, Copy, Hash, PartialEq, Eq, Structural)]
pub enum UiNavInteractionType {
    /// Sent by the navigation itself, most often for a newly added focusable.
    Auto,
    /// Sent by the application.
    Manual,
    /// Caused by the pointer.
    Mouse,
    /// Caused by a key or a gamepad button.
    Button,
}

/// Whether a button went down or came up.
#[derive(Debug, Clone, Copy, PartialEq, Eq, Hash, Structural)]
pub enum PressType {
    Release,
    Press,
}

/// The focus state of a focusable.
#[derive(Clone, Copy, PartialEq, Eq, Hash, Debug, Structural)]
pub enum FocusState {
    /// Not focused.
    Unfocused,
    /// Focused.
    Focus,
    /// Focused and pressed.
    FocusPress,
    /// Disabled.
    Disabled,
}

impl Default for FocusState {
    fn default() -> (r: Self)
        ensures
            r == FocusState::Unfocused,
    {
        FocusState::Unfocused
    }
}

impl FocusState {
    /// Whether the state is one of the two focused states.
    pub open spec fn is_active(self) -> bool {
        self == FocusState::Focus || self == FocusState::FocusPress
    }

    /// Whether the focusable is focused, pressed or not.
    pub fn active(&self) -> (r: bool)
        ensures
            r == self.is_active(),
    {
        matches!(*self, FocusState::Focus | FocusState::FocusPress)
    }
}

/// One of the eight directions of navigation.
#[derive(Clone, Copy, PartialEq, Eq, Debug, Hash, Structural)]
pub enum UiNavDirection {
    Up,
    Down,
    Left,
    Right,
    UpLeft,
    UpRight,
    DownLeft,
    DownRight,
}

} // verus!
