use bevy_ui_nav::components::{Focusable, NavMenu, Pressable};
use bevy_ui_nav::events::{
    NavRequest, UiNavCancelEvent, UiNavClickEvent, UiNavEvent, UiNavFocusChangedEvent,
};
use bevy_ui_nav::plugin::{handle_nav_requests, NavEvents};
use bevy_ui_nav::resources::UiNavState;
use bevy_ui_nav::types::{FocusState, UiNavDirection, UiNavInteractionType};
use bevy_ui_nav::utils::{Vec2, UNITS_PER_PIXEL};
use bevy_ui_nav::world::{FocusableEntry, MenuEntry, PressableEntry};

const MENU: u64 = 100;
const OTHER_MENU: u64 = 200;

fn px(pixels: i32) -> i32 {
    pixels * UNITS_PER_PIXEL
}

fn button(entity: u64, menu: u64, x: i32, y: i32) -> FocusableEntry {
    let mut focusable = Focusable::default();
    focusable.menu = Some(menu);
    FocusableEntry {
        entity,
        focusable,
        size: Vec2::new(px(80), px(30)),
        position: Vec2::new(px(x), px(y)),
        is_shown: true,
    }
}

fn state(menu: Option<u64>) -> UiNavState {
    let mut nav_state = UiNavState::default();
    nav_state.menu = menu;
    nav_state
}

struct Scene {
    menus: Vec<MenuEntry>,
    focusables: Vec<FocusableEntry>,
    pressables: Vec<PressableEntry>,
    nav_state: UiNavState,
}

impl Scene {
    fn row(wrap: bool) -> Scene {
        let mut focusables = vec![
            button(1, MENU, 0, 0),
            button(2, MENU, 100, 0),
            button(3, MENU, 200, 0),
        ];
        focusables[0].focusable.is_focused = true;
        Scene {
            menus: vec![MenuEntry { entity: MENU, menu: NavMenu::new(false, wrap) }],
            focusables,
            pressables: vec![],
            nav_state: state(Some(MENU)),
        }
    }

    fn send(&mut self, requests: Vec<NavRequest>) -> NavEvents {
        handle_nav_requests(
            &requests,
            &self.menus,
            &mut self.focusables,
            &mut self.pressables,
            &mut self.nav_state,
        )
    }

    fn focused(&self) -> Vec<u64> {
        self.focusables.iter().filter(|e| e.focusable.is_focused).map(|e| e.entity).collect()
    }
}

fn moved_to(entity: u64) -> Vec<UiNavFocusChangedEvent> {
    vec![UiNavFocusChangedEvent { entity, interaction_type: UiNavInteractionType::Button }]
}

#[test]
fn three_buttons_in_a_wrap_menu_cycle_to_the_right() {
    let mut scene = Scene::row(true);
    let events = scene.send(vec![NavRequest::Movement(UiNavDirection::Right)]);
    assert_eq!(events.focus_changes, moved_to(2));
    assert_eq!(scene.focused(), vec![2]);
    let events = scene.send(vec![NavRequest::Movement(UiNavDirection::Right)]);
    assert_eq!(events.focus_changes, moved_to(3));
    assert_eq!(scene.focused(), vec![3]);
    let events = scene.send(vec![NavRequest::Movement(UiNavDirection::Right)]);
    assert_eq!(events.focus_changes, moved_to(1));
    assert_eq!(scene.focused(), vec![1]);
    assert!(events.clicks.is_empty());
    assert!(events.cancels.is_empty());
    assert_eq!(scene.nav_state.last_focusable, Some(1));
}

#[test]
fn moving_right_as_often_as_there_are_buttons_comes_back() {
    for n in 2..9u64 {
        let mut focusables: Vec<FocusableEntry> =
            (0..n).map(|i| button(i + 1, MENU, 100 * i as i32, 0)).collect();
        focusables[0].focusable.is_focused = true;
        let mut scene = Scene {
            menus: vec![MenuEntry { entity: MENU, menu: NavMenu::new(false, true) }],
            focusables,
            pressables: vec![],
            nav_state: state(Some(MENU)),
        };
        for step in 1..=n {
            scene.send(vec![NavRequest::Movement(UiNavDirection::Right)]);
            assert_eq!(scene.focused(), vec![step % n + 1]);
        }
        assert_eq!(scene.focused(), vec![1]);
    }
}

#[test]
fn moving_left_from_the_leftmost_button_without_wrap_changes_nothing() {
    let mut scene = Scene::row(false);
    let before = scene.focusables.clone();
    let events = scene.send(vec![NavRequest::Movement(UiNavDirection::Left)]);
    assert!(events.focus_changes.is_empty());
    assert!(events.clicks.is_empty());
    assert_eq!(scene.focusables, before);
    assert_eq!(scene.focused(), vec![1]);
}

#[test]
fn moving_right_from_the_rightmost_button_without_wrap_changes_nothing() {
    let mut scene = Scene::row(false);
    scene.send(vec![
        NavRequest::Movement(UiNavDirection::Right),
        NavRequest::Movement(UiNavDirection::Right),
    ]);
    assert_eq!(scene.focused(), vec![3]);
    let events = scene.send(vec![NavRequest::Movement(UiNavDirection::Right)]);
    assert!(events.focus_changes.is_empty());
    assert_eq!(scene.focused(), vec![3]);
}

#[test]
fn moving_down_in_a_grid_stays_in_the_column() {
    let mut focusables: Vec<FocusableEntry> = (0..16)
        .map(|i| button(i as u64 + 1, MENU, 100 * (i % 4), 50 * (i / 4)))
        .collect();
    focusables[0].focusable.is_focused = true;
    let mut scene = Scene {
        menus: vec![MenuEntry { entity: MENU, menu: NavMenu::new(false, true) }],
        focusables,
        pressables: vec![],
        nav_state: state(Some(MENU)),
    };
    let events = scene.send(vec![NavRequest::Movement(UiNavDirection::Down)]);
    assert_eq!(events.focus_changes, moved_to(5));
    assert_eq!(scene.focused(), vec![5]);
    scene.send(vec![NavRequest::Movement(UiNavDirection::Right)]);
    assert_eq!(scene.focused(), vec![6]);
    scene.send(vec![NavRequest::Movement(UiNavDirection::Up)]);
    assert_eq!(scene.focused(), vec![2]);
    scene.send(vec![NavRequest::Movement(UiNavDirection::Up)]);
    assert_eq!(scene.focused(), vec![14]);
    // Nothing lies down and right of the bottom row: the move wraps to the
    // furthest button up and left.
    scene.send(vec![NavRequest::Movement(UiNavDirection::DownRight)]);
    assert_eq!(scene.focused(), vec![1]);
    scene.send(vec![NavRequest::Movement(UiNavDirection::DownRight)]);
    assert_eq!(scene.focused(), vec![6]);
    // Nothing lies up and right or down and left of the first button.
    scene.send(vec![NavRequest::SetFocus {
        entity: 1,
        interaction_type: UiNavInteractionType::Manual,
    }]);
    scene.send(vec![NavRequest::Movement(UiNavDirection::UpRight)]);
    assert_eq!(scene.focused(), vec![1]);
}

#[test]
fn a_locked_navigation_gives_no_click() {
    let mut scene = Scene::row(true);
    let events = scene.send(vec![NavRequest::Lock]);
    assert!(scene.nav_state.locked);
    assert!(events.clicks.is_empty());
    let events = scene.send(vec![NavRequest::ActionPress]);
    assert!(events.clicks.is_empty());
    assert!(!scene.focusables[0].focusable.is_pressed_key);
    let events = scene.send(vec![NavRequest::ActionRelease]);
    assert!(events.clicks.is_empty());
    assert!(events.focus_changes.is_empty());
    assert!(events.cancels.is_empty());
}

#[test]
fn a_lock_in_the_same_frame_drops_the_other_requests_of_that_frame() {
    let mut scene = Scene::row(true);
    let events = scene.send(vec![
        NavRequest::Movement(UiNavDirection::Right),
        NavRequest::Cancel,
        NavRequest::Lock,
    ]);
    assert!(scene.nav_state.locked);
    assert!(events.focus_changes.is_empty());
    assert!(events.cancels.is_empty());
    assert_eq!(scene.focused(), vec![1]);
}

#[test]
fn while_locked_only_set_focus_is_served() {
    let mut scene = Scene::row(true);
    scene.nav_state.locked = true;
    let before = scene.focusables.clone();
    let events = scene.send(vec![
        NavRequest::Movement(UiNavDirection::Right),
        NavRequest::ActionPress,
        NavRequest::ActionRelease,
        NavRequest::Cancel,
        NavRequest::Refresh,
        NavRequest::MovementReleased,
    ]);
    assert!(events.clicks.is_empty());
    assert!(events.cancels.is_empty());
    assert!(events.focus_changes.is_empty());
    assert_eq!(scene.focusables, before);
    assert!(scene.nav_state.locked);

    let events = scene.send(vec![NavRequest::SetFocus {
        entity: 3,
        interaction_type: UiNavInteractionType::Manual,
    }]);
    assert_eq!(
        events.focus_changes,
        vec![UiNavFocusChangedEvent { entity: 3, interaction_type: UiNavInteractionType::Manual }]
    );
    assert_eq!(scene.focused(), vec![3]);
    assert!(scene.nav_state.locked);

    let events = scene.send(vec![NavRequest::Unlock, NavRequest::Movement(UiNavDirection::Left)]);
    assert!(!scene.nav_state.locked);
    assert_eq!(events.focus_changes, moved_to(2));
}

#[test]
fn press_and_release_click_the_focused_button() {
    let mut scene = Scene::row(true);
    let events = scene.send(vec![NavRequest::ActionPress]);
    assert!(events.clicks.is_empty());
    assert!(scene.focusables[0].focusable.is_pressed_key);
    assert_eq!(scene.focusables[0].focusable.state(), FocusState::FocusPress);
    // Nothing moves while the button is held down.
    let events = scene.send(vec![NavRequest::Movement(UiNavDirection::Right)]);
    assert!(events.focus_changes.is_empty());
    assert_eq!(scene.focused(), vec![1]);
    let events = scene.send(vec![NavRequest::ActionRelease]);
    assert_eq!(events.clicks, vec![UiNavClickEvent(1)]);
    assert_eq!(events.clicks[0].entity(), 1);
    assert!(!scene.focusables[0].focusable.is_pressed_key);
    assert_eq!(scene.focusables[0].focusable.state(), FocusState::Focus);
    // A release without a press clicks nothing.
    let events = scene.send(vec![NavRequest::ActionRelease]);
    assert!(events.clicks.is_empty());
}

#[test]
fn a_click_comes_before_a_move_of_the_same_frame() {
    let mut scene = Scene::row(true);
    let events = scene.send(vec![
        NavRequest::Movement(UiNavDirection::Right),
        NavRequest::ActionPress,
        NavRequest::ActionRelease,
    ]);
    assert_eq!(events.clicks, vec![UiNavClickEvent(1)]);
    assert_eq!(events.focus_changes, moved_to(2));
}

#[test]
fn set_focus_comes_before_a_move_of_the_same_frame() {
    let mut scene = Scene::row(true);
    let events = scene.send(vec![
        NavRequest::Movement(UiNavDirection::Right),
        NavRequest::SetFocus { entity: 2, interaction_type: UiNavInteractionType::Manual },
    ]);
    assert_eq!(events.focus_changes, moved_to(3));
    assert_eq!(scene.focused(), vec![3]);
}

#[test]
fn losing_the_focus_while_pressed_gives_no_click() {
    let mut scene = Scene::row(true);
    scene.send(vec![NavRequest::ActionPress]);
    let events = scene.send(vec![NavRequest::SetFocus {
        entity: 2,
        interaction_type: UiNavInteractionType::Mouse,
    }]);
    assert!(events.clicks.is_empty());
    assert_eq!(
        events.focus_changes,
        vec![UiNavFocusChangedEvent { entity: 2, interaction_type: UiNavInteractionType::Mouse }]
    );
    assert!(!scene.focusables[0].focusable.is_pressed_key);
    assert!(!scene.focusables[1].focusable.is_pressed_key);
    let events = scene.send(vec![NavRequest::ActionRelease]);
    assert!(events.clicks.is_empty());
}

#[test]
fn cancel_names_the_menu() {
    let mut scene = Scene::row(true);
    let events = scene.send(vec![NavRequest::Cancel, NavRequest::Cancel]);
    assert_eq!(events.cancels, vec![UiNavCancelEvent(MENU)]);
    assert_eq!(events.cancels[0].entity(), MENU);
    assert!(events.focus_changes.is_empty());
    assert_eq!(scene.focused(), vec![1]);
    scene.nav_state.menu = None;
    let events = scene.send(vec![NavRequest::Cancel]);
    assert!(events.cancels.is_empty());
}

#[test]
fn without_a_menu_moves_and_actions_do_nothing() {
    let mut scene = Scene::row(true);
    scene.nav_state.menu = None;
    let events = scene.send(vec![
        NavRequest::Movement(UiNavDirection::Right),
        NavRequest::ActionPress,
        NavRequest::ActionRelease,
    ]);
    assert!(events.clicks.is_empty());
    assert!(events.focus_changes.is_empty());
    assert_eq!(scene.focused(), vec![1]);
}

#[test]
fn a_disabled_button_is_skipped_and_cannot_be_focused() {
    let mut scene = Scene::row(true);
    scene.focusables[1].focusable.disable();
    assert_eq!(scene.focusables[1].focusable.state(), FocusState::Disabled);
    let events = scene.send(vec![NavRequest::Movement(UiNavDirection::Right)]);
    assert_eq!(events.focus_changes, moved_to(3));
    let events = scene.send(vec![NavRequest::SetFocus {
        entity: 2,
        interaction_type: UiNavInteractionType::Manual,
    }]);
    assert!(events.focus_changes.is_empty());
    assert_eq!(scene.focused(), vec![3]);
    scene.focusables[1].focusable.enable();
    let events = scene.send(vec![NavRequest::SetFocus {
        entity: 2,
        interaction_type: UiNavInteractionType::Manual,
    }]);
    assert_eq!(events.focus_changes.len(), 1);
    assert_eq!(scene.focused(), vec![2]);
}

#[test]
fn a_hidden_button_is_skipped() {
    let mut scene = Scene::row(true);
    scene.focusables[1].is_shown = false;
    scene.send(vec![NavRequest::Movement(UiNavDirection::Right)]);
    assert_eq!(scene.focused(), vec![3]);
    scene.focusables[1].is_shown = true;
    scene.focusables[1].size = Vec2::new(0, px(30));
    scene.send(vec![NavRequest::Movement(UiNavDirection::Left)]);
    assert_eq!(scene.focused(), vec![1]);
}

#[test]
fn a_focused_button_that_gets_disabled_hands_the_focus_on_at_refresh() {
    let mut scene = Scene::row(true);
    scene.focusables[0].focusable.disable();
    scene.focusables[2].focusable.is_priority = true;
    let events = scene.send(vec![NavRequest::Refresh, NavRequest::Refresh]);
    assert_eq!(
        events.focus_changes,
        vec![UiNavFocusChangedEvent { entity: 3, interaction_type: UiNavInteractionType::Auto }]
    );
    assert_eq!(scene.focused(), vec![3]);
}

#[test]
fn refresh_picks_the_default_menu_and_its_lowest_button() {
    let mut scene = Scene::row(true);
    scene.nav_state.menu = None;
    scene.focusables[0].focusable.is_focused = false;
    scene.focusables.swap(0, 2);
    scene.menus.insert(0, MenuEntry { entity: 50, menu: NavMenu::new(false, true).locked() });
    scene.menus.push(MenuEntry { entity: OTHER_MENU, menu: NavMenu::new(true, true) });
    scene.focusables.push(button(9, OTHER_MENU, 0, 100));
    scene.focusables.push(button(8, OTHER_MENU, 100, 100));
    let events = scene.send(vec![NavRequest::Refresh]);
    assert_eq!(scene.nav_state.menu, Some(OTHER_MENU));
    assert_eq!(
        events.focus_changes,
        vec![UiNavFocusChangedEvent { entity: 8, interaction_type: UiNavInteractionType::Auto }]
    );
    assert_eq!(scene.focused(), vec![8]);
}

#[test]
fn set_focus_on_a_menu_focuses_its_priority_button() {
    let mut scene = Scene::row(true);
    scene.menus.push(MenuEntry { entity: OTHER_MENU, menu: NavMenu::default() });
    scene.focusables.push(button(7, OTHER_MENU, 0, 100));
    let mut priority = button(9, OTHER_MENU, 100, 100);
    priority.focusable = Focusable::prioritized();
    priority.focusable.menu = Some(OTHER_MENU);
    scene.focusables.push(priority);
    let events = scene.send(vec![NavRequest::SetFocus {
        entity: OTHER_MENU,
        interaction_type: UiNavInteractionType::Manual,
    }]);
    assert_eq!(scene.nav_state.menu, Some(OTHER_MENU));
    assert_eq!(
        events.focus_changes,
        vec![UiNavFocusChangedEvent { entity: 9, interaction_type: UiNavInteractionType::Auto }]
    );
    assert_eq!(scene.focused(), vec![9]);
}

#[test]
fn set_focus_on_an_empty_menu_or_an_unknown_entity_is_dropped() {
    let mut scene = Scene::row(true);
    scene.menus.push(MenuEntry { entity: OTHER_MENU, menu: NavMenu::default() });
    let mut disabled = button(7, OTHER_MENU, 0, 100);
    disabled.focusable = disabled.focusable.disabled();
    scene.focusables.push(disabled);
    let before = scene.focusables.clone();
    for entity in [OTHER_MENU, 7, 12345] {
        let events = scene.send(vec![NavRequest::SetFocus {
            entity,
            interaction_type: UiNavInteractionType::Manual,
        }]);
        assert!(events.focus_changes.is_empty());
        assert_eq!(scene.nav_state.menu, Some(MENU));
        assert_eq!(scene.focusables, before);
    }
}

#[test]
fn set_focus_on_a_button_of_another_menu_changes_the_menu() {
    let mut scene = Scene::row(true);
    scene.menus.push(MenuEntry { entity: OTHER_MENU, menu: NavMenu::default() });
    scene.focusables.push(button(7, OTHER_MENU, 0, 100));
    scene.send(vec![NavRequest::SetFocus {
        entity: 7,
        interaction_type: UiNavInteractionType::Manual,
    }]);
    assert_eq!(scene.nav_state.menu, Some(OTHER_MENU));
    assert_eq!(scene.focused(), vec![7]);
    // A move stays among the buttons of the menu that is now active.
    let events = scene.send(vec![NavRequest::Movement(UiNavDirection::Up)]);
    assert!(events.focus_changes.is_empty());
}

#[test]
fn a_button_for_the_pointer_alone_keeps_the_focus_of_the_keys() {
    let mut scene = Scene::row(true);
    let mut mouse_only = button(7, MENU, 100, 100);
    mouse_only.focusable.is_mouse_only = true;
    scene.focusables.push(mouse_only);
    let events = scene.send(vec![NavRequest::SetFocus {
        entity: 7,
        interaction_type: UiNavInteractionType::Mouse,
    }]);
    assert_eq!(
        events.focus_changes,
        vec![UiNavFocusChangedEvent { entity: 7, interaction_type: UiNavInteractionType::Mouse }]
    );
    assert_eq!(scene.focused(), vec![1, 7]);
    // Directional navigation never lands on it.
    scene.send(vec![NavRequest::Movement(UiNavDirection::Down)]);
    assert_eq!(scene.focused(), vec![1, 7]);
}

#[test]
fn with_nothing_focused_a_move_takes_the_priority_button_or_starts_top_left() {
    let mut scene = Scene::row(true);
    scene.focusables[0].focusable.is_focused = false;
    scene.focusables[1].focusable.is_priority = true;
    scene.send(vec![NavRequest::Movement(UiNavDirection::Left)]);
    assert_eq!(scene.focused(), vec![2]);

    let mut scene = Scene::row(true);
    scene.focusables[0].focusable.is_focused = false;
    scene.send(vec![NavRequest::Movement(UiNavDirection::Left)]);
    assert_eq!(scene.focused(), vec![1]);
}

#[test]
fn a_left_pressable_takes_the_move_and_is_clicked_on_release() {
    let mut scene = Scene::row(true);
    scene.send(vec![NavRequest::SetFocus {
        entity: 2,
        interaction_type: UiNavInteractionType::Manual,
    }]);
    scene.pressables = vec![
        PressableEntry { entity: 21, owner: 2, pressable: Pressable::new_left() },
        PressableEntry { entity: 22, owner: 2, pressable: Pressable::new_right() },
        PressableEntry { entity: 11, owner: 1, pressable: Pressable::new_left() },
    ];
    let events = scene.send(vec![NavRequest::Movement(UiNavDirection::Left)]);
    assert!(events.focus_changes.is_empty());
    assert!(events.clicks.is_empty());
    assert_eq!(scene.focused(), vec![2]);
    assert!(scene.pressables[0].pressable.is_pressed());
    assert!(!scene.pressables[1].pressable.is_pressed());
    assert!(!scene.pressables[2].pressable.is_pressed());
    assert!(scene.pressables[1].pressable.is_hovered());
    assert!(!scene.pressables[2].pressable.is_hovered());
    let events = scene.send(vec![NavRequest::MovementReleased]);
    assert_eq!(events.clicks, vec![UiNavClickEvent(21)]);
    assert!(events.focus_changes.is_empty());
    assert_eq!(scene.focused(), vec![2]);
    assert!(!scene.pressables[0].pressable.is_pressed());
    // A direction without a pressable moves the focus as usual.
    let events = scene.send(vec![
        NavRequest::Movement(UiNavDirection::Right),
        NavRequest::MovementReleased,
    ]);
    assert_eq!(events.clicks, vec![UiNavClickEvent(22)]);
    let events = scene.send(vec![NavRequest::Movement(UiNavDirection::Down)]);
    assert!(events.clicks.is_empty());
    assert!(events.focus_changes.is_empty());
}

#[test]
fn a_press_pressable_takes_the_action_key() {
    let mut scene = Scene::row(true);
    scene.pressables = vec![
        PressableEntry { entity: 11, owner: 1, pressable: Pressable::new_left() },
        PressableEntry { entity: 12, owner: 1, pressable: Pressable::new_press() },
    ];
    let events = scene.send(vec![NavRequest::ActionPress]);
    assert!(events.clicks.is_empty());
    assert!(!scene.focusables[0].focusable.is_pressed_key);
    assert!(scene.pressables[1].pressable.is_pressed());
    let events = scene.send(vec![NavRequest::Movement(UiNavDirection::Right)]);
    assert!(events.focus_changes.is_empty());
    let events = scene.send(vec![NavRequest::ActionRelease]);
    assert_eq!(events.clicks, vec![UiNavClickEvent(12)]);
    assert!(!scene.pressables[1].pressable.is_pressed());
}

#[test]
fn moving_away_lets_a_held_pressable_go_without_a_click() {
    let mut scene = Scene::row(true);
    scene.pressables =
        vec![PressableEntry { entity: 11, owner: 1, pressable: Pressable::new_left() }];
    scene.send(vec![NavRequest::Movement(UiNavDirection::Left)]);
    assert!(scene.pressables[0].pressable.is_pressed());
    let events = scene.send(vec![NavRequest::Movement(UiNavDirection::Right)]);
    assert_eq!(events.focus_changes, moved_to(2));
    assert!(!scene.pressables[0].pressable.is_pressed());
    let events = scene.send(vec![NavRequest::MovementReleased]);
    assert!(events.clicks.is_empty());
}

#[test]
fn losing_the_focus_clears_what_the_pointer_did() {
    let mut scene = Scene::row(true);
    scene.focusables[0].focusable.is_pressed_interaction = true;
    scene.focusables[0].focusable.is_pressed_interaction_from_active = true;
    scene.focusables[0].focusable.is_hovered_interaction = true;
    scene.focusables[2].focusable.is_hovered_interaction = true;
    scene.send(vec![NavRequest::Movement(UiNavDirection::Right)]);
    assert_eq!(scene.focused(), vec![2]);
    let left = scene.focusables[0].focusable;
    assert!(!left.is_pressed_interaction);
    assert!(!left.is_pressed_interaction_from_active);
    assert!(!left.is_hovered_interaction);
    // A focusable that did not hold the focus keeps what the pointer did.
    assert!(scene.focusables[2].focusable.is_hovered_interaction);
}

#[test]
fn refresh_leaves_a_menu_that_is_gone() {
    let mut scene = Scene::row(true);
    scene.menus = vec![MenuEntry { entity: OTHER_MENU, menu: NavMenu::default() }];
    scene.focusables.push(button(9, OTHER_MENU, 0, 100));
    let events = scene.send(vec![NavRequest::Refresh]);
    assert_eq!(scene.nav_state.menu, Some(OTHER_MENU));
    assert_eq!(
        events.focus_changes,
        vec![UiNavFocusChangedEvent { entity: 9, interaction_type: UiNavInteractionType::Auto }]
    );
    assert_eq!(scene.focused(), vec![9]);

    // With no menu left, nothing is active and nothing is focused.
    scene.menus = vec![];
    let events = scene.send(vec![NavRequest::Refresh]);
    assert_eq!(scene.nav_state.menu, None);
    assert!(events.focus_changes.is_empty());
    assert_eq!(scene.focused(), Vec::<u64>::new());
    assert_eq!(scene.nav_state.last_focusable, Some(9));
}

#[test]
fn refresh_while_locked_changes_nothing() {
    let mut scene = Scene::row(true);
    scene.focusables[0].focusable.is_focused = false;
    scene.nav_state.locked = true;
    let events = scene.send(vec![NavRequest::Refresh]);
    assert!(events.focus_changes.is_empty());
    assert_eq!(scene.focused(), Vec::<u64>::new());
    let events = scene.send(vec![NavRequest::Unlock, NavRequest::Refresh]);
    assert_eq!(
        events.focus_changes,
        vec![UiNavFocusChangedEvent { entity: 1, interaction_type: UiNavInteractionType::Auto }]
    );
}

#[test]
fn a_change_of_the_lock_forgets_the_held_direction() {
    let mut scene = Scene::row(true);
    scene.nav_state.direction = Some(UiNavDirection::Right);
    scene.nav_state.nav_timer.tick(5);
    scene.nav_state.hold_timer.tick(7);
    scene.send(vec![NavRequest::Unlock]);
    assert_eq!(scene.nav_state.direction, Some(UiNavDirection::Right));
    assert_eq!(scene.nav_state.hold_timer.elapsed, 7);
    scene.send(vec![NavRequest::Lock]);
    assert!(scene.nav_state.locked);
    assert_eq!(scene.nav_state.direction, None);
    assert_eq!(scene.nav_state.nav_timer.elapsed, 0);
    assert_eq!(scene.nav_state.hold_timer.elapsed, 0);
    scene.nav_state.direction = Some(UiNavDirection::Left);
    scene.send(vec![NavRequest::Lock]);
    assert_eq!(scene.nav_state.direction, Some(UiNavDirection::Left));
    scene.send(vec![NavRequest::Unlock]);
    assert!(!scene.nav_state.locked);
    assert_eq!(scene.nav_state.direction, None);
}
