use bevy_ui_nav::components::{
    Focusable, FocusableAction, NavMenu, Pressable, PressableAction, PressableState,
};
use bevy_ui_nav::events::{NavRequest, UiNavClickEvent};
use bevy_ui_nav::interaction::{handle_interactions, Interaction, PointerInput};
use bevy_ui_nav::resources::{Stopwatch, UiNavState};
use bevy_ui_nav::setup::{
    find_menu_ancestor, handle_current_menu_removed, handle_focusable_changed,
    setup_new_focusables, setup_new_menus, update_focusable_visibility, ParentLink,
};
use bevy_ui_nav::types::{FocusState, UiNavDirection, UiNavInteractionType};
use bevy_ui_nav::utils::Vec2;
use bevy_ui_nav::world::{FocusableEntry, MenuEntry};

fn menu(entity: u64, menu: NavMenu) -> MenuEntry {
    MenuEntry { entity, menu }
}

fn entry(entity: u64, focusable: Focusable) -> FocusableEntry {
    FocusableEntry {
        entity,
        focusable,
        size: Vec2::new(800_000, 300_000),
        position: Vec2::new(0, 0),
        is_shown: true,
    }
}

fn in_menu(entity: u64, menu: u64) -> FocusableEntry {
    let mut focusable = Focusable::default();
    focusable.menu = Some(menu);
    entry(entity, focusable)
}

fn pointer(interaction: Interaction, is_mouse_over: bool) -> PointerInput {
    PointerInput { interaction, is_mouse_over }
}

fn mouse_focus(entity: u64) -> NavRequest {
    NavRequest::SetFocus { entity, interaction_type: UiNavInteractionType::Mouse }
}

#[test]
fn builders_set_their_flags() {
    let m = NavMenu::default();
    assert_eq!((m.is_priority, m.is_wrap, m.is_locked), (false, true, false));
    let m = NavMenu::new(true, false);
    assert_eq!((m.is_priority, m.is_wrap, m.is_locked), (true, false, false));
    let m = NavMenu::new(false, false).locked().with_wrap(true).prioritized();
    assert_eq!((m.is_priority, m.is_wrap, m.is_locked), (true, true, true));

    let f = Focusable::prioritized();
    assert!(f.is_priority && !f.is_disabled && !f.is_focused);
    assert_eq!(f.action, FocusableAction::Press);
    let f = Focusable::default().with_action(FocusableAction::PressXY).disabled();
    assert_eq!(f.action, FocusableAction::PressXY);
    assert!(f.is_disabled);
    let f = f.with_disabled(false).with_priority(true).with_priority(false);
    assert!(!f.is_disabled && !f.is_priority);
    assert_eq!(FocusableAction::default(), FocusableAction::Press);
    assert_eq!(PressableAction::default(), PressableAction::Press);
    assert_eq!(PressableState::default(), PressableState::Idle);
    assert_eq!(FocusState::default(), FocusState::Unfocused);
}

#[test]
fn focusable_state_puts_disabled_first() {
    let mut f = Focusable::default();
    assert_eq!(f.state(), FocusState::Unfocused);
    assert!(!f.active());
    f.is_pressed_key = true;
    assert!(!f.is_pressed());
    assert_eq!(f.state(), FocusState::Unfocused);
    f.is_focused = true;
    assert!(f.active() && f.is_pressed());
    assert_eq!(f.state(), FocusState::FocusPress);
    f.is_pressed_key = false;
    assert_eq!(f.state(), FocusState::Focus);
    f.is_hovered_interaction = true;
    assert!(f.is_hovered());
    f.disable();
    assert_eq!(f.state(), FocusState::Disabled);
    assert!(!f.active() && !f.is_hovered());
    f.enable();
    assert_eq!(f.state(), FocusState::Focus);
}

#[test]
fn pressable_state_puts_pressed_first() {
    let mut p = Pressable::new_left();
    assert_eq!(p.action, PressableAction::Left);
    assert_eq!(Pressable::new_right().action, PressableAction::Right);
    assert_eq!(Pressable::new_press(), Pressable::default());
    assert_eq!(p.state(), PressableState::Idle);
    p._is_hover_focusable = true;
    assert!(p.is_hovered());
    assert_eq!(p.state(), PressableState::Hovered);
    p._is_pressed_interaction = true;
    assert!(p.is_pressed());
    assert_eq!(p.state(), PressableState::Pressed);
    p._is_pressed_interaction = false;
    p._is_hover_focusable = false;
    p._is_hover_interaction = true;
    assert_eq!(p.state(), PressableState::Hovered);
    p._is_pressed_focusable = true;
    assert_eq!(p.state(), PressableState::Pressed);
}

#[test]
fn actions_match_their_directions() {
    let directions = [
        UiNavDirection::Up,
        UiNavDirection::Down,
        UiNavDirection::Left,
        UiNavDirection::Right,
        UiNavDirection::UpLeft,
        UiNavDirection::UpRight,
        UiNavDirection::DownLeft,
        UiNavDirection::DownRight,
    ];
    let actions = [
        (PressableAction::Up, Some(UiNavDirection::Up)),
        (PressableAction::Down, Some(UiNavDirection::Down)),
        (PressableAction::Left, Some(UiNavDirection::Left)),
        (PressableAction::Right, Some(UiNavDirection::Right)),
        (PressableAction::Press, None),
    ];
    for (action, own) in actions {
        for direction in directions {
            assert_eq!(action.matches_direction(direction), own == Some(direction));
        }
    }
    for direction in directions {
        assert!(!FocusableAction::Press.matches_direction(direction));
        assert_eq!(
            FocusableAction::PressXY.matches_direction(direction),
            direction == UiNavDirection::Left || direction == UiNavDirection::Right
        );
    }
    assert!(FocusableAction::Press.matches_action(PressableAction::Press));
    assert!(!FocusableAction::Press.matches_action(PressableAction::Left));
    assert!(FocusableAction::PressXY.matches_action(PressableAction::Left));
    assert!(FocusableAction::PressXY.matches_action(PressableAction::Right));
    assert!(!FocusableAction::PressXY.matches_action(PressableAction::Press));
    assert!(!FocusableAction::PressXY.matches_action(PressableAction::Up));
}

#[test]
fn a_priority_menu_wins_over_the_others_of_its_frame() {
    let mut nav_state = UiNavState::default();
    let added = vec![
        menu(1, NavMenu::default().locked()),
        menu(2, NavMenu::default()),
        menu(3, NavMenu::default().prioritized()),
        menu(4, NavMenu::default().prioritized()),
    ];
    assert_eq!(setup_new_menus(&added, &added, &mut nav_state), Some(NavRequest::Refresh));
    assert_eq!(nav_state.menu, Some(3));
}

#[test]
fn the_first_unlocked_menu_is_taken_while_none_is_active() {
    let mut nav_state = UiNavState::default();
    let added = vec![menu(1, NavMenu::default().locked()), menu(2, NavMenu::default()), menu(3, NavMenu::default())];
    assert_eq!(setup_new_menus(&added, &added, &mut nav_state), Some(NavRequest::Refresh));
    assert_eq!(nav_state.menu, Some(2));

    // With a menu active, a menu without priority changes nothing.
    let more = vec![menu(5, NavMenu::default())];
    let all = vec![added[1], more[0]];
    assert_eq!(setup_new_menus(&more, &all, &mut nav_state), Some(NavRequest::Refresh));
    assert_eq!(nav_state.menu, Some(2));
    // The active menu is gone from the scene: the new one is taken.
    assert_eq!(setup_new_menus(&more, &more, &mut nav_state), Some(NavRequest::Refresh));
    assert_eq!(nav_state.menu, Some(5));
    // A locked priority menu still takes over.
    let locked = vec![menu(6, NavMenu::default().locked().prioritized())];
    setup_new_menus(&locked, &locked, &mut nav_state);
    assert_eq!(nav_state.menu, Some(6));
    // Only locked menus, none active: nothing is taken.
    let mut nav_state = UiNavState::default();
    let locked = vec![menu(7, NavMenu::default().locked())];
    assert_eq!(setup_new_menus(&locked, &locked, &mut nav_state), Some(NavRequest::Refresh));
    assert_eq!(nav_state.menu, None);
    assert_eq!(setup_new_menus(&vec![], &locked, &mut nav_state), None);
}

#[test]
fn the_nearest_menu_above_is_found() {
    let menus = vec![menu(10, NavMenu::default()), menu(20, NavMenu::default())];
    let links = vec![
        ParentLink { child: 1, parent: 2 },
        ParentLink { child: 2, parent: 20 },
        ParentLink { child: 20, parent: 3 },
        ParentLink { child: 3, parent: 10 },
        ParentLink { child: 5, parent: 6 },
    ];
    assert_eq!(find_menu_ancestor(1, &links, &menus), Some(20));
    assert_eq!(find_menu_ancestor(2, &links, &menus), Some(20));
    assert_eq!(find_menu_ancestor(20, &links, &menus), Some(10));
    assert_eq!(find_menu_ancestor(10, &links, &menus), None);
    assert_eq!(find_menu_ancestor(5, &links, &menus), None);
    assert_eq!(find_menu_ancestor(99, &links, &menus), None);
    let circle = vec![ParentLink { child: 1, parent: 2 }, ParentLink { child: 2, parent: 1 }];
    assert_eq!(find_menu_ancestor(1, &circle, &menus), None);
}

#[test]
fn a_new_priority_focusable_in_the_active_menu_asks_for_the_focus() {
    let menus = vec![menu(10, NavMenu::default()), menu(20, NavMenu::default())];
    let links = vec![
        ParentLink { child: 1, parent: 10 },
        ParentLink { child: 2, parent: 20 },
        ParentLink { child: 3, parent: 20 },
        ParentLink { child: 4, parent: 20 },
        ParentLink { child: 5, parent: 20 },
        ParentLink { child: 6, parent: 20 },
    ];
    let mut nav_state = UiNavState::default();
    nav_state.menu = Some(20);
    let mut mouse_only = Focusable::prioritized();
    mouse_only.is_mouse_only = true;
    let mut attached = Focusable::prioritized();
    attached.menu = Some(20);
    let mut added = vec![
        entry(1, Focusable::prioritized()),
        entry(2, Focusable::default()),
        entry(3, Focusable::prioritized().disabled()),
        entry(4, mouse_only),
        entry(7, Focusable::prioritized()),
        entry(8, attached),
        entry(5, Focusable::prioritized()),
        entry(6, Focusable::prioritized()),
    ];
    let request = setup_new_focusables(&mut added, &links, &menus, &nav_state);
    assert_eq!(
        request,
        Some(NavRequest::SetFocus { entity: 5, interaction_type: UiNavInteractionType::Auto })
    );
    let found: Vec<Option<u64>> = added.iter().map(|e| e.focusable.menu).collect();
    assert_eq!(
        found,
        vec![Some(10), Some(20), Some(20), Some(20), None, Some(20), Some(20), Some(20)]
    );
    let mut again = added.clone();
    assert_eq!(setup_new_focusables(&mut again, &links, &menus, &nav_state), None);
    assert_eq!(again, added);
}

#[test]
fn removing_the_active_menu_clears_it() {
    let mut nav_state = UiNavState::default();
    nav_state.menu = Some(20);
    nav_state.direction = Some(UiNavDirection::Up);
    nav_state.nav_timer = Stopwatch { elapsed: 7 };
    nav_state.locked = true;
    let before = nav_state;
    assert_eq!(handle_current_menu_removed(&vec![10, 30], &mut nav_state), NavRequest::Refresh);
    assert_eq!(nav_state, before);
    assert_eq!(handle_current_menu_removed(&vec![10, 20], &mut nav_state), NavRequest::Refresh);
    assert_eq!(nav_state.menu, None);
    assert_eq!(nav_state.direction, None);
    assert_eq!(nav_state.nav_timer, Stopwatch { elapsed: 0 });
    assert!(nav_state.locked);
    assert_eq!(handle_current_menu_removed(&vec![20], &mut nav_state), NavRequest::Refresh);
    assert_eq!(handle_focusable_changed(true), Some(NavRequest::Refresh));
    assert_eq!(handle_focusable_changed(false), None);
}

#[test]
fn visibility_follows_the_layout() {
    let mut focusables = vec![in_menu(1, 10), in_menu(2, 10), in_menu(3, 10)];
    focusables[1].is_shown = false;
    focusables[1].focusable.is_visible = true;
    focusables[2].size = Vec2::new(5, 0);
    update_focusable_visibility(&mut focusables);
    let seen: Vec<bool> = focusables.iter().map(|e| e.focusable.is_visible).collect();
    assert_eq!(seen, vec![true, false, false]);
}

#[test]
fn hovering_asks_for_the_focus() {
    let menus = vec![menu(10, NavMenu::default())];
    let mut nav_state = UiNavState::default();
    nav_state.menu = Some(10);
    let mut focusables = vec![in_menu(1, 10), in_menu(2, 10), in_menu(3, 10)];
    focusables[0].focusable.is_focused = true;
    focusables[2].focusable.is_disabled = true;
    let inputs = vec![
        pointer(Interaction::Hovered, true),
        pointer(Interaction::Hovered, true),
        pointer(Interaction::Hovered, true),
    ];
    let out = handle_interactions(&mut focusables, &inputs, &menus, &nav_state);
    assert_eq!(out.requests, vec![mouse_focus(2)]);
    assert!(out.clicks.is_empty());
    assert!(focusables[0].focusable.is_hovered_interaction);
    assert!(focusables[1].focusable.is_hovered_interaction);
    assert!(!focusables[2].focusable.is_hovered_interaction);
    assert!(!focusables[1].focusable.is_focused);
}

#[test]
fn press_and_release_inside_a_button_click_it() {
    let menus = vec![menu(10, NavMenu::default())];
    let mut nav_state = UiNavState::default();
    nav_state.menu = Some(10);
    let mut focusables = vec![in_menu(1, 10), in_menu(2, 10)];
    focusables[0].focusable.is_focused = true;
    let idle = pointer(Interaction::Idle, false);
    let out = handle_interactions(
        &mut focusables,
        &vec![pointer(Interaction::Pressed, true), idle],
        &menus,
        &nav_state,
    );
    assert!(out.clicks.is_empty());
    assert!(out.requests.is_empty());
    assert!(focusables[0].focusable.is_pressed_interaction);
    assert!(focusables[0].focusable.is_pressed_interaction_from_active);
    let out = handle_interactions(
        &mut focusables,
        &vec![pointer(Interaction::Hovered, true), idle],
        &menus,
        &nav_state,
    );
    assert_eq!(out.clicks, vec![UiNavClickEvent(1)]);
    assert!(!focusables[0].focusable.is_pressed_interaction);

    // A release outside the button clicks nothing.
    handle_interactions(
        &mut focusables,
        &vec![pointer(Interaction::Pressed, true), idle],
        &menus,
        &nav_state,
    );
    let out = handle_interactions(&mut focusables, &vec![idle, idle], &menus, &nav_state);
    assert!(out.clicks.is_empty());
    assert!(!focusables[0].focusable.is_hovered_interaction);
}

#[test]
fn a_press_that_began_while_a_key_held_a_button_down_is_ignored() {
    let menus = vec![menu(10, NavMenu::default())];
    let mut nav_state = UiNavState::default();
    nav_state.menu = Some(10);
    let mut focusables = vec![in_menu(1, 10), in_menu(2, 10)];
    focusables[0].focusable.is_focused = true;
    focusables[0].focusable.is_pressed_key = true;
    let idle = pointer(Interaction::Idle, false);
    let out = handle_interactions(
        &mut focusables,
        &vec![idle, pointer(Interaction::Pressed, true)],
        &menus,
        &nav_state,
    );
    assert!(out.requests.is_empty());
    assert!(focusables[1].focusable.is_pressed_interaction);
    assert!(!focusables[1].focusable.is_pressed_interaction_from_active);
    focusables[0].focusable.is_pressed_key = false;
    let out = handle_interactions(
        &mut focusables,
        &vec![idle, pointer(Interaction::Hovered, true)],
        &menus,
        &nav_state,
    );
    assert!(out.clicks.is_empty());
    assert_eq!(out.requests, vec![mouse_focus(2)]);
}

#[test]
fn a_locked_menu_keeps_the_pointer_inside() {
    let menus = vec![menu(10, NavMenu::default().locked()), menu(20, NavMenu::default())];
    let mut nav_state = UiNavState::default();
    nav_state.menu = Some(10);
    let mut focusables = vec![in_menu(1, 10), in_menu(2, 20)];
    let hover = pointer(Interaction::Hovered, true);
    let out = handle_interactions(&mut focusables, &vec![hover, hover], &menus, &nav_state);
    assert_eq!(out.requests, vec![mouse_focus(1)]);
    assert!(!focusables[1].focusable.is_hovered_interaction);
    // From an unlocked menu the pointer does not enter a locked one.
    nav_state.menu = Some(20);
    let mut focusables = vec![in_menu(1, 10), in_menu(2, 20)];
    let out = handle_interactions(&mut focusables, &vec![hover, hover], &menus, &nav_state);
    assert_eq!(out.requests, vec![mouse_focus(2)]);
    assert!(!focusables[0].focusable.is_hovered_interaction);
    // A locked navigation hears nothing of the pointer.
    nav_state.locked = true;
    let mut focusables = vec![in_menu(1, 10), in_menu(2, 20)];
    let before = focusables.clone();
    let out = handle_interactions(&mut focusables, &vec![hover, hover], &menus, &nav_state);
    assert!(out.requests.is_empty() && out.clicks.is_empty());
    assert_eq!(focusables, before);
}

#[test]
fn a_button_for_the_pointer_alone_loses_its_focus_when_the_pointer_leaves() {
    let menus = vec![menu(10, NavMenu::default())];
    let mut nav_state = UiNavState::default();
    nav_state.menu = Some(10);
    let mut focusables = vec![in_menu(1, 10), in_menu(2, 10)];
    focusables[0].focusable.is_mouse_only = true;
    focusables[0].focusable.is_focused = true;
    focusables[0].focusable.is_hovered_interaction = true;
    focusables[1].focusable.is_focused = true;
    let idle = pointer(Interaction::Idle, false);
    let out = handle_interactions(&mut focusables, &vec![idle], &menus, &nav_state);
    assert!(out.requests.is_empty());
    assert!(!focusables[0].focusable.is_focused);
    assert!(!focusables[0].focusable.is_hovered_interaction);
    // The second focusable had no input and is left alone.
    assert!(focusables[1].focusable.is_focused);
}
