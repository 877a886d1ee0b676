//! The items that most users of the crate need.

pub use crate::components::{
    Focusable, FocusableAction, NavMenu, Pressable, PressableAction, PressableState,
};
pub use crate::events::{
    NavRequest, UiNavCancelEvent, UiNavClickEvent, UiNavEvent, UiNavFocusChangedEvent,
};
pub use crate::input::{
    update_input_manager, ActionType, GamepadButton, GamepadDevice, GamepadState, GamepadStick,
    InputMapping, KeyCode, UiNavInputManager,
};
pub use crate::plugin::{handle_nav_requests, NavEvents};
pub use crate::resources::{Stopwatch, UiNavSettings, UiNavState};
pub use crate::types::{
    Entity, FocusState, PressType, UiNavDirection, UiNavInteractionType,
};
pub use crate::utils::Vec2;
pub use crate::world::{FocusableEntry, MenuEntry, PressableEntry};
