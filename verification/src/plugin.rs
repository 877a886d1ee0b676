use vstd::prelude::*;
use crate::components::{Focusable, Pressable};
use crate::events::{NavRequest, UiNavCancelEvent, UiNavClickEvent, UiNavFocusChangedEvent};
use crate::resources::UiNavState;
use crate::spatial_map::{Phase, UiSpatialMap};
use crate::types::UiNavInteractionType;
use crate::world::{FocusableEntry, MenuEntry, PressableEntry};

verus! {

/// What the requests of one frame have to tell the application.
pub struct NavEvents {
    pub clicks: Vec<UiNavClickEvent>,
    pub cancels: Vec<UiNavCancelEvent>,
    pub focus_changes: Vec<UiNavFocusChangedEvent>,
}

/// The state after all requests of a frame. They are served by kind, not
/// in the order in which they came: first locks and unlocks, then, if one
/// is asked for and the navigation is unlocked, the refresh of the focus, then
/// the requests to set the focus, then presses and releases of the action
/// key, then moves.
pub open spec fn served_spec(
    start: UiSpatialMap,
    ms: Seq<MenuEntry>,
    fs: Seq<FocusableEntry>,
    ps: Seq<PressableEntry>,
    requests: Seq<NavRequest>,
) -> UiSpatialMap {
    focused_phase(start, ms, fs, ps, requests).run_spec(ms, fs, ps, requests, Phase::Action).run_spec(
        ms,
        fs,
        ps,
        requests,
        Phase::Movement,
    )
}

/// The state after locks, unlocks and the refresh of the focus.
pub open spec fn refreshed_phase(
    start: UiSpatialMap,
    ms: Seq<MenuEntry>,
    fs: Seq<FocusableEntry>,
    ps: Seq<PressableEntry>,
    requests: Seq<NavRequest>,
) -> UiSpatialMap {
    let locked = start.run_spec(ms, fs, ps, requests, Phase::Lock);
    if requests.contains(NavRequest::Refresh) {
        locked.refresh_spec(ms, fs)
    } else {
        locked
    }
}

/// The state after the requests to set the focus.
pub open spec fn focused_phase(
    start: UiSpatialMap,
    ms: Seq<MenuEntry>,
    fs: Seq<FocusableEntry>,
    ps: Seq<PressableEntry>,
    requests: Seq<NavRequest>,
) -> UiSpatialMap {
    refreshed_phase(start, ms, fs, ps, requests).run_spec(ms, fs, ps, requests, Phase::Focus)
}

/// The clicks of a frame: those of the releases of the action key, then
/// those of the releases of a direction.
pub open spec fn clicks_spec(
    start: UiSpatialMap,
    ms: Seq<MenuEntry>,
    fs: Seq<FocusableEntry>,
    ps: Seq<PressableEntry>,
    requests: Seq<NavRequest>,
) -> Seq<UiNavClickEvent> {
    let focused = focused_phase(start, ms, fs, ps, requests);
    let acted = focused.run_spec(ms, fs, ps, requests, Phase::Action);
    focused.clicks_spec(ms, fs, ps, requests, Phase::Action) + acted.clicks_spec(
        ms,
        fs,
        ps,
        requests,
        Phase::Movement,
    )
}

/// The cancel of a frame: one for the active menu, if the cancel key was
/// pressed while the navigation is unlocked and a menu is active.
pub open spec fn cancels_spec(end: UiSpatialMap, requests: Seq<NavRequest>) -> Seq<
    UiNavCancelEvent,
> {
    if requests.contains(NavRequest::Cancel) && !end.locked && end.menu is Some {
        seq![UiNavCancelEvent(end.menu->0)]
    } else {
        Seq::empty()
    }
}

/// The changes of focus of a frame: one for the focusable that holds the
/// focus of keys and gamepad at the end, if it did not at the start, then
/// one for the focusable that holds the focus of the pointer alone, if it
/// did not at the start.
pub open spec fn focus_changes_spec(start: UiSpatialMap, end: UiSpatialMap) -> Seq<
    UiNavFocusChangedEvent,
> {
    let first = if end.focusable != start.focusable && end.focusable is Some {
        seq![
            UiNavFocusChangedEvent {
                entity: end.focusable->0,
                interaction_type: match end.interaction_type {
                    Some(t) => t,
                    None => UiNavInteractionType::Auto,
                },
            },
        ]
    } else {
        Seq::empty()
    };
    let second = if end.mouse_focusable != start.mouse_focusable && end.mouse_focusable is Some {
        seq![
            UiNavFocusChangedEvent {
                entity: end.mouse_focusable->0,
                interaction_type: UiNavInteractionType::Mouse,
            },
        ]
    } else {
        Seq::empty()
    };
    first + second
}

/// Whether the focusable held the focus of keys and gamepad at the start
/// of the frame and does not hold it at the end.
pub open spec fn lost_focus(e: FocusableEntry, start: UiSpatialMap, end: UiSpatialMap) -> bool {
    start.focusable == Some(e.entity) && end.focusable != Some(e.entity)
}

/// A focusable as the end of a frame leaves it. One for keys and gamepad
/// is focused exactly if it holds the focus, and pressed by the key exactly
/// if it is also held down; one that has lost the focus is neither pressed
/// nor hovered by the pointer any more. One for the pointer alone is
/// touched only when the focus of the pointer has moved.
pub open spec fn shown_focusable(e: FocusableEntry, start: UiSpatialMap, end: UiSpatialMap) -> FocusableEntry {
    if e.focusable.is_mouse_only {
        if end.mouse_focusable != start.mouse_focusable {
            FocusableEntry {
                focusable: Focusable {
                    is_focused: end.mouse_focusable == Some(e.entity),
                    ..e.focusable
                },
                ..e
            }
        } else {
            e
        }
    } else {
        let kept = !lost_focus(e, start, end);
        FocusableEntry {
            focusable: Focusable {
                is_focused: end.focusable == Some(e.entity),
                is_pressed_key: end.focusable == Some(e.entity) && end.is_pressed,
                is_pressed_interaction: kept && e.focusable.is_pressed_interaction,
                is_pressed_interaction_from_active: kept
                    && e.focusable.is_pressed_interaction_from_active,
                is_hovered_interaction: kept && e.focusable.is_hovered_interaction,
                ..e.focusable
            },
            ..e
        }
    }
}

/// A pressable as the end of a frame leaves it: pressed through its
/// focusable exactly if it is the one held down, hovered through its
/// focusable exactly if that one holds the focus.
pub open spec fn shown_pressable(p: PressableEntry, end: UiSpatialMap) -> PressableEntry {
    PressableEntry {
        pressable: Pressable {
            _is_pressed_focusable: end.pressable matches Some(h) && h.entity == p.entity,
            _is_hover_focusable: end.focusable == Some(p.owner),
            ..p.pressable
        },
        ..p
    }
}

/// The navigation state as the end of a frame leaves it: lock and menu
/// as the requests left them, and the focusable that holds the focus noted
/// as the last one that did. Where the lock has changed, the held direction
/// is forgotten and both timers start again.
pub open spec fn shown_state(nav_state: UiNavState, end: UiSpatialMap) -> UiNavState {
    let base = if end.locked != nav_state.locked {
        nav_state.direction_cleared()
    } else {
        nav_state
    };
    UiNavState {
        locked: end.locked,
        menu: end.menu,
        last_focusable: if end.focusable is Some {
            end.focusable
        } else {
            nav_state.last_focusable
        },
        ..base
    }
}

fn has_request(requests: &Vec<NavRequest>, wanted: NavRequest) -> (r: bool)
    ensures
        r == requests@.contains(wanted),
{
    let mut i: usize = 0;
    while i < requests.len()
        invariant
            i <= requests.len(),
            forall|j: int| 0 <= j < i ==> requests@[j] != wanted,
        decreases requests.len() - i,
    {
        if requests[i] == wanted {
            return true;
        }
        i += 1;
    }
    false
}

fn show_focusables(focusables: &mut Vec<FocusableEntry>, start: &UiSpatialMap, end: &UiSpatialMap)
    ensures
        final(focusables)@.len() == old(focusables)@.len(),
        forall|i: int|
            0 <= i < old(focusables)@.len() ==> #[trigger] final(focusables)@[i] == shown_focusable(
                old(focusables)@[i],
                *start,
                *end,
            ),
{
    let ghost before = focusables@;
    let mut i: usize = 0;
    while i < focusables.len()
        invariant
            i <= focusables.len(),
            focusables@.len() == before.len(),
            forall|j: int| 0 <= j < i ==> #[trigger] focusables@[j] == shown_focusable(before[j], *start, *end),
            forall|j: int| i <= j < before.len() ==> #[trigger] focusables@[j] == before[j],
        decreases focusables.len() - i,
    {
        let mut e = focusables[i];
        if e.focusable.is_mouse_only {
            if end.mouse_focusable != start.mouse_focusable {
                e.focusable.is_focused = end.mouse_focusable == Some(e.entity);
            }
        } else {
            let is_focused: bool = end.focusable == Some(e.entity);
            if start.focusable == Some(e.entity) && !is_focused {
                e.focusable.is_pressed_interaction = false;
                e.focusable.is_pressed_interaction_from_active = false;
                e.focusable.is_hovered_interaction = false;
            }
            e.focusable.is_focused = is_focused;
            e.focusable.is_pressed_key = is_focused && end.is_pressed;
        }
        focusables.set(i, e);
        i += 1;
    }
}

fn show_pressables(pressables: &mut Vec<PressableEntry>, end: &UiSpatialMap)
    ensures
        final(pressables)@.len() == old(pressables)@.len(),
        forall|i: int|
            0 <= i < old(pressables)@.len() ==> #[trigger] final(pressables)@[i] == shown_pressable(
                old(pressables)@[i],
                *end,
            ),
{
    let ghost before = pressables@;
    let mut i: usize = 0;
    while i < pressables.len()
        invariant
            i <= pressables.len(),
            pressables@.len() == before.len(),
            forall|j: int| 0 <= j < i ==> #[trigger] pressables@[j] == shown_pressable(before[j], *end),
            forall|j: int| i <= j < before.len() ==> #[trigger] pressables@[j] == before[j],
        decreases pressables.len() - i,
    {
        let mut p = pressables[i];
        p.pressable._is_pressed_focusable =
        match end.pressable {
            Some(h) => h.entity == p.entity,
            None => false,
        };
        p.pressable._is_hover_focusable = end.focusable == Some(p.owner);
        pressables.set(i, p);
        i += 1;
    }
}

/// Serves the requests of one frame: moves focus, menu and lock, writes
/// the outcome back to the focusables, the pressables and the navigation
/// state, and returns the events for the application.
pub fn handle_nav_requests(
    requests: &Vec<NavRequest>,
    menus: &Vec<MenuEntry>,
    focusables: &mut Vec<FocusableEntry>,
    pressables: &mut Vec<PressableEntry>,
    nav_state: &mut UiNavState,
) -> (events: NavEvents)
    ensures
        ({
            let start = UiSpatialMap::start_spec(*old(nav_state), old(focusables)@, old(pressables)@);
            let end = served_spec(start, menus@, old(focusables)@, old(pressables)@, requests@);
            &&& events.clicks@ == clicks_spec(
                start,
                menus@,
                old(focusables)@,
                old(pressables)@,
                requests@,
            )
            &&& events.cancels@ == cancels_spec(end, requests@)
            &&& events.focus_changes@ == focus_changes_spec(start, end)
            &&& *final(nav_state) == shown_state(*old(nav_state), end)
            &&& final(focusables)@.len() == old(focusables)@.len()
            &&& forall|i: int|
                0 <= i < old(focusables)@.len() ==> #[trigger] final(focusables)@[i]
                    == shown_focusable(old(focusables)@[i], start, end)
            &&& final(pressables)@.len() == old(pressables)@.len()
            &&& forall|i: int|
                0 <= i < old(pressables)@.len() ==> #[trigger] final(pressables)@[i]
                    == shown_pressable(old(pressables)@[i], end)
        }),
{
    let start = UiSpatialMap::new(nav_state, focusables, pressables);
    let mut map = start;
    let mut unused: Vec<UiNavClickEvent> = Vec::new();
    let mut clicks: Vec<UiNavClickEvent> = Vec::new();
    map.run(menus, focusables, pressables, requests, Phase::Lock, &mut unused);
    if has_request(requests, NavRequest::Refresh) {
        map.refresh(menus, focusables);
    }
    map.run(menus, focusables, pressables, requests, Phase::Focus, &mut unused);
    map.run(menus, focusables, pressables, requests, Phase::Action, &mut clicks);
    map.run(menus, focusables, pressables, requests, Phase::Movement, &mut clicks);

    let mut cancels: Vec<UiNavCancelEvent> = Vec::new();
    if has_request(requests, NavRequest::Cancel) && !map.locked {
        if let Some(menu) = map.menu {
            cancels.push(UiNavCancelEvent(menu));
        }
    }
    let mut focus_changes: Vec<UiNavFocusChangedEvent> = Vec::new();
    if map.focusable != start.focusable {
        if let Some(entity) = map.focusable {
            let interaction_type = match map.interaction_type {
                Some(t) => t,
                None => UiNavInteractionType::Auto,
            };
            focus_changes.push(UiNavFocusChangedEvent { entity, interaction_type });
        }
    }
    if map.mouse_focusable != start.mouse_focusable {
        if let Some(entity) = map.mouse_focusable {
            focus_changes.push(
                UiNavFocusChangedEvent { entity, interaction_type: UiNavInteractionType::Mouse },
            );
        }
    }
    show_focusables(focusables, &start, &map);
    show_pressables(pressables, &map);
    if map.locked != nav_state.locked {
        nav_state.clear_direction();
    }
    nav_state.locked = map.locked;
    nav_state.menu = map.menu;
    if map.focusable.is_some() {
        nav_state.last_focusable = map.focusable;
    }
    NavEvents { clicks, cancels, focus_changes }
}

} // verus!
