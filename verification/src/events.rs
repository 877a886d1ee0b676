use vstd::prelude::*;
use crate::types::{Entity, UiNavDirection, UiNavInteractionType};

verus! {

/// Told when the focus has moved to another focusable.
#[derive(Debug, Clone, Copy, PartialEq, Eq, Structural)]
pub struct UiNavFocusChangedEvent {
    pub entity: Entity,
    pub interaction_type: UiNavInteractionType,
}

/// Told when the cancel key is pressed. The entity is the active menu.
#[derive(Debug, Clone, Copy, PartialEq, Eq, Structural)]
pub struct UiNavCancelEvent(pub Entity);

/// Told when a focusable or a pressable is clicked.
#[derive(Debug, Clone, Copy, PartialEq, Eq, Structural)]
pub struct UiNavClickEvent(pub Entity);

/// A request to the navigation.
#[derive(Debug, Clone, Copy, PartialEq, Eq, Structural)]
pub enum NavRequest {
    /// Set the focus on a focusable, or on a menu.
    SetFocus { entity: Entity, interaction_type: UiNavInteractionType },
    /// Move the focus in a direction.
    Movement(UiNavDirection),
    /// The held direction was let go.
    MovementReleased,
    /// The action key went down.
    ActionPress,
    /// The action key came up.
    ActionRelease,
    /// The cancel key went down.
    Cancel,
    /// Look at the focus again after menus or focusables have changed.
    Refresh,
    /// Lock the navigation: until it is unlocked, only requests to set the
    /// focus are served.
    Lock,
    /// Unlock the navigation.
    Unlock,
}

/// An event that is about one entity.
pub trait UiNavEvent {
    spec fn entity_spec(&self) -> Entity;

    /// The entity that the event is about.
    fn entity(&self) -> (r: Entity)
        ensures
            r == self.entity_spec(),
    ;
}

impl UiNavEvent for UiNavClickEvent {
    open spec fn entity_spec(&self) -> Entity {
        self.0
    }

    fn entity(&self) -> (r: Entity) {
        self.0
    }
}

impl UiNavEvent for UiNavCancelEvent {
    open spec fn entity_spec(&self) -> Entity {
        self.0
    }

    fn entity(&self) -> (r: Entity) {
        self.0
    }
}

} // verus!
