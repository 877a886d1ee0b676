use vstd::prelude::*;
use crate::components::PressableAction;
use crate::events::{NavRequest, UiNavClickEvent};
use crate::resolve::{resolve_2d, resolve_2d_spec};
use crate::resources::UiNavState;
use crate::seq_util::{lemma_take_all, lemma_take_step};
use crate::types::{Entity, UiNavDirection, UiNavInteractionType};
use crate::world::{
    default_focusable, default_focusable_spec, default_menu, default_menu_spec,
    direction_pressable_spec, eligible, find_direction_pressable, find_focusable,
    find_focusable_spec, find_focused, find_held_pressable, find_menu, find_menu_spec,
    find_mouse_focused, find_press_pressable, focused_spec, held_pressable_spec, is_eligible,
    is_mouse_eligible, mouse_eligible, mouse_focused_spec, press_pressable_spec, siblings_of,
    siblings_spec, FocusableEntry, MenuEntry, PressableEntry,
};

verus! {

/// A pressable that is held down through its focusable, and the input that
/// holds it.
#[derive(Debug, Clone, Copy, PartialEq, Eq, Structural)]
pub struct HeldPressable {
    pub entity: Entity,
    pub action: PressableAction,
}

/// The state that the requests of one frame work on.
#[derive(Debug, Clone, Copy, PartialEq, Eq, Structural)]
pub struct UiSpatialMap {
    /// Whether the navigation is locked.
    pub locked: bool,
    /// The active menu.
    pub menu: Option<Entity>,
    /// The focusable that holds the focus of keys and gamepad.
    pub focusable: Option<Entity>,
    /// The focusable that holds the focus of the pointer alone.
    pub mouse_focusable: Option<Entity>,
    /// Whether the focused focusable is held down by the action key.
    pub is_pressed: bool,
    /// The pressable of the focused focusable that is held down through it.
    pub pressable: Option<HeldPressable>,
    /// Where the last change of focus came from.
    pub interaction_type: Option<UiNavInteractionType>,
}

/// The kinds of request, in the order in which a frame serves them.
#[derive(Debug, Clone, Copy, PartialEq, Eq, Structural)]
pub enum Phase {
    /// `Lock` and `Unlock`.
    Lock,
    /// `SetFocus`.
    Focus,
    /// `ActionPress` and `ActionRelease`.
    Action,
    /// `Movement` and `MovementReleased`.
    Movement,
}

/// The state after one request, and the entity that was clicked, if one was.
pub struct Step {
    pub map: UiSpatialMap,
    pub click: Option<Entity>,
}

impl UiSpatialMap {
    /// The state that a frame starts from: lock and menu as they were left,
    /// focus and presses as the scene shows them.
    pub open spec fn start_spec(
        nav_state: UiNavState,
        fs: Seq<FocusableEntry>,
        ps: Seq<PressableEntry>,
    ) -> UiSpatialMap {
        let focused = focused_spec(fs);
        UiSpatialMap {
            locked: nav_state.locked,
            menu: nav_state.menu,
            focusable: match focused {
                Some(e) => Some(e.entity),
                None => None,
            },
            mouse_focusable: match mouse_focused_spec(fs) {
                Some(e) => Some(e.entity),
                None => None,
            },
            is_pressed: match focused {
                Some(e) => e.focusable.is_pressed_key,
                None => false,
            },
            pressable: match focused {
                Some(e) => match held_pressable_spec(ps, e.entity) {
                    Some(p) => Some(HeldPressable { entity: p.entity, action: p.pressable.action }),
                    None => None,
                },
                None => None,
            },
            interaction_type: None,
        }
    }

    /// The focus moves to `focusable`; what was held down is let go without
    /// a click.
    pub open spec fn with_focusable(
        self,
        focusable: Option<Entity>,
        interaction_type: UiNavInteractionType,
    ) -> UiSpatialMap {
        UiSpatialMap {
            focusable,
            is_pressed: false,
            pressable: None,
            interaction_type: Some(interaction_type),
            ..self
        }
    }

    /// `menu` becomes the active menu; what was held down is let go without
    /// a click.
    pub open spec fn with_menu(self, menu: Option<Entity>) -> UiSpatialMap {
        UiSpatialMap { menu, is_pressed: false, pressable: None, ..self }
    }

    /// Whether the action key holds something down: the focused focusable,
    /// or its pressable for the action key.
    pub open spec fn action_held(self) -> bool {
        self.is_pressed || (self.pressable matches Some(h) && h.action == PressableAction::Press)
    }

    /// The active menu, if it is a menu of the scene.
    pub open spec fn live_menu(self, ms: Seq<MenuEntry>) -> Option<Entity> {
        match self.menu {
            Some(menu) => if find_menu_spec(ms, menu) is Some {
                Some(menu)
            } else {
                None
            },
            None => None,
        }
    }

    /// The state after the focus has been refreshed. Nothing changes
    /// while locked. With an active menu of the scene and no focus, the
    /// default focusable of that menu takes the focus. Without such a menu,
    /// the default menu becomes active and its default focusable takes the
    /// focus; where there is no default menu either, no menu is active and
    /// nothing is focused.
    pub open spec fn refresh_spec(self, ms: Seq<MenuEntry>, fs: Seq<FocusableEntry>) -> UiSpatialMap {
        if self.locked {
            self
        } else {
            match self.live_menu(ms) {
                Some(menu) => if self.focusable is None {
                    self.with_focusable(default_focusable_spec(fs, menu), UiNavInteractionType::Auto)
                } else {
                    self
                },
                None => match default_menu_spec(ms) {
                    Some(menu) => self.with_menu(Some(menu)).with_focusable(
                        default_focusable_spec(fs, menu),
                        UiNavInteractionType::Auto,
                    ),
                    None => if self.menu is Some {
                        self.with_menu(None).with_focusable(None, UiNavInteractionType::Auto)
                    } else {
                        self
                    },
                },
            }
        }
    }

    /// The state after a request to set the focus on `entity`. An eligible
    /// focusable takes the focus, and its menu becomes the active one. A
    /// focusable for the pointer alone takes the focus of the pointer. A menu
    /// other than the active one becomes active, and its default focusable
    /// takes the focus; a menu without one is left alone. Anything else, a
    /// disabled or hidden focusable among it, changes nothing.
    pub open spec fn set_focus_spec(
        self,
        ms: Seq<MenuEntry>,
        fs: Seq<FocusableEntry>,
        entity: Entity,
        interaction_type: UiNavInteractionType,
    ) -> UiSpatialMap {
        match find_focusable_spec(fs, entity) {
            Some(e) => if eligible(e) {
                if self.focusable == Some(entity) {
                    self
                } else if e.focusable.menu != self.menu {
                    self.with_focusable(Some(entity), interaction_type).with_menu(e.focusable.menu)
                } else {
                    self.with_focusable(Some(entity), interaction_type)
                }
            } else if mouse_eligible(e) {
                UiSpatialMap { mouse_focusable: Some(entity), ..self }
            } else {
                self
            },
            None => match find_menu_spec(ms, entity) {
                Some(_) => if self.menu == Some(entity) {
                    self
                } else {
                    match default_focusable_spec(fs, entity) {
                        Some(f) => self.with_menu(Some(entity)).with_focusable(
                            Some(f),
                            UiNavInteractionType::Auto,
                        ),
                        None => self,
                    }
                },
                None => self,
            },
        }
    }

    /// Whether requests for actions and moves are served: the navigation is
    /// unlocked and a menu is active.
    pub open spec fn serves(self) -> bool {
        !self.locked && self.menu is Some
    }

    /// The state after the action key went down. The pressable of the
    /// focused focusable that answers to the key is held down; without one,
    /// the focusable itself is.
    pub open spec fn press_spec(self, ps: Seq<PressableEntry>) -> UiSpatialMap {
        if !self.serves() || self.action_held() {
            self
        } else {
            match self.focusable {
                Some(f) => match press_pressable_spec(ps, f) {
                    Some(p) => UiSpatialMap {
                        pressable: Some(
                            HeldPressable { entity: p.entity, action: PressableAction::Press },
                        ),
                        ..self
                    },
                    None => UiSpatialMap { is_pressed: true, ..self },
                },
                None => self,
            }
        }
    }

    /// The state after the action key came up, and the click that it gives:
    /// on the pressable that the key held down, else on the focusable that
    /// it held down.
    pub open spec fn release_spec(self) -> Step {
        if !self.serves() {
            Step { map: self, click: None }
        } else {
            match self.focusable {
                Some(f) => match self.pressable {
                    Some(h) => if h.action == PressableAction::Press {
                        Step {
                            map: UiSpatialMap { pressable: None, ..self },
                            click: Some(h.entity),
                        }
                    } else if self.is_pressed {
                        Step { map: UiSpatialMap { is_pressed: false, ..self }, click: Some(f) }
                    } else {
                        Step { map: self, click: None }
                    },
                    None => if self.is_pressed {
                        Step { map: UiSpatialMap { is_pressed: false, ..self }, click: Some(f) }
                    } else {
                        Step { map: self, click: None }
                    },
                },
                None => Step { map: self, click: None },
            }
        }
    }

    /// Whether the active menu wraps around.
    pub open spec fn wraps(self, ms: Seq<MenuEntry>) -> bool {
        match self.menu {
            Some(menu) => match find_menu_spec(ms, menu) {
                Some(m) => m.menu.is_wrap,
                None => false,
            },
            None => false,
        }
    }

    /// The state after a request to move in `direction`. Nothing moves
    /// while the action key holds something down. A pressable of the
    /// focused focusable that answers to the direction is held down, and the
    /// focus stays. Else the focus moves to what the resolver finds among
    /// the siblings of the active menu, if it finds anything.
    pub open spec fn movement_spec(
        self,
        ms: Seq<MenuEntry>,
        fs: Seq<FocusableEntry>,
        ps: Seq<PressableEntry>,
        direction: UiNavDirection,
    ) -> UiSpatialMap {
        if !self.serves() || self.action_held() {
            self
        } else {
            let pressable = match self.focusable {
                Some(f) => direction_pressable_spec(ps, f, direction),
                None => None,
            };
            match pressable {
                Some(p) => UiSpatialMap {
                    pressable: Some(
                        HeldPressable { entity: p.entity, action: p.pressable.action },
                    ),
                    ..self
                },
                None => match resolve_2d_spec(
                    self.focusable,
                    direction,
                    self.wraps(ms),
                    siblings_spec(fs, self.menu->0),
                ) {
                    Some(target) => self.with_focusable(Some(target), UiNavInteractionType::Button),
                    None => self,
                },
            }
        }
    }

    /// The state after the held direction was let go, and the click that it
    /// gives: on the pressable that the direction held down.
    pub open spec fn movement_released_spec(self) -> Step {
        if !self.serves() {
            Step { map: self, click: None }
        } else {
            match self.pressable {
                Some(h) => if h.action != PressableAction::Press {
                    Step { map: UiSpatialMap { pressable: None, ..self }, click: Some(h.entity) }
                } else {
                    Step { map: self, click: None }
                },
                None => Step { map: self, click: None },
            }
        }
    }

    /// The state after `request`, if its kind is the one that `phase`
    /// serves; else the state as it was.
    pub open spec fn step_spec(
        self,
        ms: Seq<MenuEntry>,
        fs: Seq<FocusableEntry>,
        ps: Seq<PressableEntry>,
        request: NavRequest,
        phase: Phase,
    ) -> Step {
        match (phase, request) {
            (Phase::Lock, NavRequest::Lock) => Step {
                map: UiSpatialMap { locked: true, ..self },
                click: None,
            },
            (Phase::Lock, NavRequest::Unlock) => Step {
                map: UiSpatialMap { locked: false, ..self },
                click: None,
            },
            (Phase::Focus, NavRequest::SetFocus { entity, interaction_type }) => Step {
                map: self.set_focus_spec(ms, fs, entity, interaction_type),
                click: None,
            },
            (Phase::Action, NavRequest::ActionPress) => Step {
                map: self.press_spec(ps),
                click: None,
            },
            (Phase::Action, NavRequest::ActionRelease) => self.release_spec(),
            (Phase::Movement, NavRequest::Movement(direction)) => Step {
                map: self.movement_spec(ms, fs, ps, direction),
                click: None,
            },
            (Phase::Movement, NavRequest::MovementReleased) => self.movement_released_spec(),
            _ => Step { map: self, click: None },
        }
    }

    /// The state after the requests that `phase` serves, in their order.
    pub open spec fn run_spec(
        self,
        ms: Seq<MenuEntry>,
        fs: Seq<FocusableEntry>,
        ps: Seq<PressableEntry>,
        requests: Seq<NavRequest>,
        phase: Phase,
    ) -> UiSpatialMap
        decreases requests.len(),
    {
        if requests.len() == 0 {
            self
        } else {
            self.run_spec(ms, fs, ps, requests.drop_last(), phase).step_spec(
                ms,
                fs,
                ps,
                requests.last(),
                phase,
            ).map
        }
    }

    /// The clicks that the requests that `phase` serves give, in their
    /// order.
    pub open spec fn clicks_spec(
        self,
        ms: Seq<MenuEntry>,
        fs: Seq<FocusableEntry>,
        ps: Seq<PressableEntry>,
        requests: Seq<NavRequest>,
        phase: Phase,
    ) -> Seq<UiNavClickEvent>
        decreases requests.len(),
    {
        if requests.len() == 0 {
            Seq::empty()
        } else {
            let before = self.clicks_spec(ms, fs, ps, requests.drop_last(), phase);
            match self.run_spec(ms, fs, ps, requests.drop_last(), phase).step_spec(
                ms,
                fs,
                ps,
                requests.last(),
                phase,
            ).click {
                Some(e) => before.push(UiNavClickEvent(e)),
                None => before,
            }
        }
    }

    /// Reads the state that a frame starts from.
    pub fn new(nav_state: &UiNavState, fs: &Vec<FocusableEntry>, ps: &Vec<PressableEntry>) -> (r:
        Self)
        ensures
            r == Self::start_spec(*nav_state, fs@, ps@),
    {
        let focused = find_focused(fs);
        let mouse = find_mouse_focused(fs);
        UiSpatialMap {
            locked: nav_state.locked,
            menu: nav_state.menu,
            focusable: match focused {
                Some(e) => Some(e.entity),
                None => None,
            },
            mouse_focusable: match mouse {
                Some(e) => Some(e.entity),
                None => None,
            },
            is_pressed: match focused {
                Some(e) => e.focusable.is_pressed_key,
                None => false,
            },
            pressable: match focused {
                Some(e) => match find_held_pressable(ps, e.entity) {
                    Some(p) => Some(HeldPressable { entity: p.entity, action: p.pressable.action }),
                    None => None,
                },
                None => None,
            },
            interaction_type: None,
        }
    }

    fn set_focus_to_focusable(
        &mut self,
        new_focusable: Option<Entity>,
        interaction_type: UiNavInteractionType,
    )
        ensures
            *final(self) == old(self).with_focusable(new_focusable, interaction_type),
    {
        self.focusable = new_focusable;
        self.is_pressed = false;
        self.pressable = None;
        self.interaction_type = Some(interaction_type);
    }

    fn set_focus_to_menu(&mut self, menu: Option<Entity>)
        ensures
            *final(self) == old(self).with_menu(menu),
    {
        self.menu = menu;
        self.is_pressed = false;
        self.pressable = None;
    }

    /// Refreshes the focus after menus or focusables have changed.
    pub fn refresh(&mut self, ms: &Vec<MenuEntry>, fs: &Vec<FocusableEntry>)
        ensures
            *final(self) == old(self).refresh_spec(ms@, fs@),
    {
        if self.locked {
            return ;
        }
        let live: Option<Entity> = match self.menu {
            Some(menu) => if find_menu(ms, menu).is_some() {
                Some(menu)
            } else {
                None
            },
            None => None,
        };
        match live {
            Some(menu) => {
                if self.focusable.is_none() {
                    let focusable = default_focusable(fs, menu);
                    self.set_focus_to_focusable(focusable, UiNavInteractionType::Auto);
                }
            },
            None => {
                match default_menu(ms) {
                    Some(menu) => {
                        self.set_focus_to_menu(Some(menu));
                        let focusable = default_focusable(fs, menu);
                        self.set_focus_to_focusable(focusable, UiNavInteractionType::Auto);
                    },
                    None => {
                        if self.menu.is_some() {
                            self.set_focus_to_menu(None);
                            self.set_focus_to_focusable(None, UiNavInteractionType::Auto);
                        }
                    },
                }
            },
        }
    }

    /// Sets the focus on a focusable, or on a menu.
    pub fn set_focus(
        &mut self,
        ms: &Vec<MenuEntry>,
        fs: &Vec<FocusableEntry>,
        entity: Entity,
        interaction_type: UiNavInteractionType,
    )
        ensures
            *final(self) == old(self).set_focus_spec(ms@, fs@, entity, interaction_type),
    {
        match find_focusable(fs, entity) {
            Some(e) => {
                if is_eligible(&e) {
                    let is_current: bool = match self.focusable {
                        Some(f) => f == entity,
                        None => false,
                    };
                    if !is_current {
                        self.set_focus_to_focusable(Some(entity), interaction_type);
                        if e.focusable.menu != self.menu {
                            self.set_focus_to_menu(e.focusable.menu);
                        }
                    }
                } else if is_mouse_eligible(&e) {
                    self.mouse_focusable = Some(entity);
                }
            },
            None => {
                if find_menu(ms, entity).is_some() {
                    let is_current: bool = match self.menu {
                        Some(m) => m == entity,
                        None => false,
                    };
                    if !is_current {
                        if let Some(f) = default_focusable(fs, entity) {
                            self.set_focus_to_menu(Some(entity));
                            self.set_focus_to_focusable(Some(f), UiNavInteractionType::Auto);
                        }
                    }
                }
            },
        }
    }

    fn can_act(&self) -> (r: bool)
        ensures
            r == (self.serves() && !self.action_held()),
    {
        let held: bool = match self.pressable {
            Some(h) => h.action == PressableAction::Press,
            None => false,
        };
        !self.locked && self.menu.is_some() && !self.is_pressed && !held
    }

    /// Serves the action key going down.
    pub fn press(&mut self, ps: &Vec<PressableEntry>)
        ensures
            *final(self) == old(self).press_spec(ps@),
    {
        if !self.can_act() {
            return ;
        }
        if let Some(f) = self.focusable {
            match find_press_pressable(ps, f) {
                Some(p) => {
                    self.pressable =
                    Some(HeldPressable { entity: p.entity, action: PressableAction::Press });
                },
                None => {
                    self.is_pressed = true;
                },
            }
        }
    }

    /// Serves the action key coming up, and returns what was clicked.
    pub fn release(&mut self) -> (click: Option<Entity>)
        ensures
            *final(self) == old(self).release_spec().map,
            click == old(self).release_spec().click,
    {
        if self.locked || self.menu.is_none() {
            return None;
        }
        match self.focusable {
            Some(f) => {
                let held: Option<Entity> = match self.pressable {
                    Some(h) => if h.action == PressableAction::Press {
                        Some(h.entity)
                    } else {
                        None
                    },
                    None => None,
                };
                match held {
                    Some(p) => {
                        self.pressable = None;
                        Some(p)
                    },
                    None => {
                        if self.is_pressed {
                            self.is_pressed = false;
                            Some(f)
                        } else {
                            None
                        }
                    },
                }
            },
            None => None,
        }
    }

    /// Serves a request to move in `direction`.
    pub fn apply_movement(
        &mut self,
        ms: &Vec<MenuEntry>,
        fs: &Vec<FocusableEntry>,
        ps: &Vec<PressableEntry>,
        direction: UiNavDirection,
    )
        ensures
            *final(self) == old(self).movement_spec(ms@, fs@, ps@, direction),
    {
        if !self.can_act() {
            return ;
        }
        let menu: Entity = match self.menu {
            Some(m) => m,
            None => { return ; },
        };
        let pressable: Option<PressableEntry> = match self.focusable {
            Some(f) => find_direction_pressable(ps, f, direction),
            None => None,
        };
        match pressable {
            Some(p) => {
                self.pressable =
                Some(HeldPressable { entity: p.entity, action: p.pressable.action });
            },
            None => {
                let is_wrap: bool = match find_menu(ms, menu) {
                    Some(m) => m.menu.is_wrap,
                    None => false,
                };
                let siblings = siblings_of(fs, menu);
                if let Some(target) = resolve_2d(self.focusable, direction, is_wrap, &siblings) {
                    self.set_focus_to_focusable(Some(target), UiNavInteractionType::Button);
                }
            },
        }
    }

    /// Serves the held direction being let go, and returns what was
    /// clicked.
    pub fn release_movement(&mut self) -> (click: Option<Entity>)
        ensures
            *final(self) == old(self).movement_released_spec().map,
            click == old(self).movement_released_spec().click,
    {
        if self.locked || self.menu.is_none() {
            return None;
        }
        match self.pressable {
            Some(h) => {
                if h.action != PressableAction::Press {
                    self.pressable = None;
                    Some(h.entity)
                } else {
                    None
                }
            },
            None => None,
        }
    }

    /// Locks the navigation.
    pub fn lock(&mut self)
        ensures
            *final(self) == (UiSpatialMap { locked: true, ..*old(self) }),
    {
        self.locked = true;
    }

    /// Unlocks the navigation.
    pub fn unlock(&mut self)
        ensures
            *final(self) == (UiSpatialMap { locked: false, ..*old(self) }),
    {
        self.locked = false;
    }

    /// Serves one request, if its kind is the one that `phase` serves, and
    /// returns what was clicked.
    pub fn step(
        &mut self,
        ms: &Vec<MenuEntry>,
        fs: &Vec<FocusableEntry>,
        ps: &Vec<PressableEntry>,
        request: NavRequest,
        phase: Phase,
    ) -> (click: Option<Entity>)
        ensures
            *final(self) == old(self).step_spec(ms@, fs@, ps@, request, phase).map,
            click == old(self).step_spec(ms@, fs@, ps@, request, phase).click,
    {
        match (phase, request) {
            (Phase::Lock, NavRequest::Lock) => {
                self.lock();
                None
            },
            (Phase::Lock, NavRequest::Unlock) => {
                self.unlock();
                None
            },
            (Phase::Focus, NavRequest::SetFocus { entity, interaction_type }) => {
                self.set_focus(ms, fs, entity, interaction_type);
                None
            },
            (Phase::Action, NavRequest::ActionPress) => {
                self.press(ps);
                None
            },
            (Phase::Action, NavRequest::ActionRelease) => self.release(),
            (Phase::Movement, NavRequest::Movement(direction)) => {
                self.apply_movement(ms, fs, ps, direction);
                None
            },
            (Phase::Movement, NavRequest::MovementReleased) => self.release_movement(),
            _ => None,
        }
    }

    /// Serves, in their order, the requests that `phase` serves, and adds
    /// the clicks that they give to `clicks`.
    pub fn run(
        &mut self,
        ms: &Vec<MenuEntry>,
        fs: &Vec<FocusableEntry>,
        ps: &Vec<PressableEntry>,
        requests: &Vec<NavRequest>,
        phase: Phase,
        clicks: &mut Vec<UiNavClickEvent>,
    )
        ensures
            *final(self) == old(self).run_spec(ms@, fs@, ps@, requests@, phase),
            final(clicks)@ == old(clicks)@ + old(self).clicks_spec(
                ms@,
                fs@,
                ps@,
                requests@,
                phase,
            ),
    {
        let ghost start = *self;
        let ghost before = clicks@;
        let mut i: usize = 0;
        while i < requests.len()
            invariant
                i <= requests.len(),
                *self == start.run_spec(ms@, fs@, ps@, requests@.take(i as int), phase),
                clicks@ == before + start.clicks_spec(
                    ms@,
                    fs@,
                    ps@,
                    requests@.take(i as int),
                    phase,
                ),
            decreases requests.len() - i,
        {
            proof {
                lemma_take_step(requests@, i as int);
            }
            let click = self.step(ms, fs, ps, requests[i], phase);
            if let Some(e) = click {
                clicks.push(UiNavClickEvent(e));
            }
            i += 1;
        }
        proof {
            lemma_take_all(requests@);
        }
    }
}

} // verus!
