use vstd::prelude::*;
use crate::components::Focusable;
use crate::events::NavRequest;
use crate::resolve::{is_node_visible, node_visible};
use crate::resources::UiNavState;
use crate::seq_util::{
    first_index, lemma_first_index, lemma_first_index_at, lemma_first_index_none, lemma_take_all, lemma_take_step,
};
use crate::types::{Entity, UiNavInteractionType};
use crate::world::{at, find_menu, find_menu_spec, FocusableEntry, MenuEntry};

verus! {

/// An element of the scene and the element that contains it.
#[derive(Debug, Clone, Copy, PartialEq, Eq, Structural)]
pub struct ParentLink {
    pub child: Entity,
    pub parent: Entity,
}

pub open spec fn menu_has_priority() -> spec_fn(MenuEntry) -> bool {
    |m: MenuEntry| m.menu.is_priority
}

pub open spec fn menu_is_unlocked() -> spec_fn(MenuEntry) -> bool {
    |m: MenuEntry| !m.menu.is_locked
}

pub open spec fn link_of(child: Entity) -> spec_fn(ParentLink) -> bool {
    |l: ParentLink| l.child == child
}

/// The menu that becomes active among the menus added in one frame: the
/// first of them with priority; without one, and only while no menu is
/// active, the first of them that is not locked.
pub open spec fn arbitrate_spec(added: Seq<MenuEntry>, has_current_menu: bool) -> Option<Entity> {
    match at(added, first_index(added, menu_has_priority())) {
        Some(m) => Some(m.entity),
        None => if has_current_menu {
            None
        } else {
            match at(added, first_index(added, menu_is_unlocked())) {
                Some(m) => Some(m.entity),
                None => None,
            }
        },
    }
}

/// Whether the navigation state names a menu that is in the scene.
pub open spec fn has_current_menu_spec(nav_state: UiNavState, ms: Seq<MenuEntry>) -> bool {
    nav_state.menu matches Some(m) && find_menu_spec(ms, m) is Some
}

/// The navigation state after menus have been added.
pub open spec fn menus_added_spec(
    nav_state: UiNavState,
    added: Seq<MenuEntry>,
    ms: Seq<MenuEntry>,
) -> UiNavState {
    match arbitrate_spec(added, has_current_menu_spec(nav_state, ms)) {
        Some(target) => UiNavState { menu: Some(target), ..nav_state },
        None => nav_state,
    }
}

fn first_priority_menu(added: &Vec<MenuEntry>) -> (r: Option<MenuEntry>)
    ensures
        r == at(added@, first_index(added@, menu_has_priority())),
{
    let mut i: usize = 0;
    while i < added.len()
        invariant
            i <= added.len(),
            forall|j: int| 0 <= j < i ==> !menu_has_priority()(#[trigger] added@[j]),
        decreases added.len() - i,
    {
        if added[i].menu.is_priority {
            proof {
                lemma_first_index_at(added@, menu_has_priority(), i as int);
            }
            return Some(added[i]);
        }
        i += 1;
    }
    proof {
        lemma_first_index_none(added@, menu_has_priority());
    }
    None
}

fn first_unlocked_menu(added: &Vec<MenuEntry>) -> (r: Option<MenuEntry>)
    ensures
        r == at(added@, first_index(added@, menu_is_unlocked())),
{
    let mut i: usize = 0;
    while i < added.len()
        invariant
            i <= added.len(),
            forall|j: int| 0 <= j < i ==> !menu_is_unlocked()(#[trigger] added@[j]),
        decreases added.len() - i,
    {
        if !added[i].menu.is_locked {
            proof {
                lemma_first_index_at(added@, menu_is_unlocked(), i as int);
            }
            return Some(added[i]);
        }
        i += 1;
    }
    proof {
        lemma_first_index_none(added@, menu_is_unlocked());
    }
    None
}

/// Takes in the menus that were added in this frame. `menus` are all the
/// menus of the scene. Where any was added, the navigation state names the
/// menu that becomes active, if one does, and a refresh of the focus is asked
/// for.
pub fn setup_new_menus(added: &Vec<MenuEntry>, menus: &Vec<MenuEntry>, nav_state: &mut UiNavState) -> (r:
    Option<NavRequest>)
    ensures
        added@.len() == 0 ==> r is None && *final(nav_state) == *old(nav_state),
        added@.len() > 0 ==> r == Some(NavRequest::Refresh) && *final(nav_state) == menus_added_spec(
            *old(nav_state),
            added@,
            menus@,
        ),
{
    if added.len() == 0 {
        return None;
    }
    let has_current_menu: bool = match nav_state.menu {
        Some(m) => find_menu(menus, m).is_some(),
        None => false,
    };
    let new_focus: Option<Entity> = match first_priority_menu(added) {
        Some(m) => Some(m.entity),
        None => if has_current_menu {
            None
        } else {
            match first_unlocked_menu(added) {
                Some(m) => Some(m.entity),
                None => None,
            }
        },
    };
    if let Some(target) = new_focus {
        nav_state.menu = Some(target);
    }
    Some(NavRequest::Refresh)
}

/// The element that contains `child`, by the first link that names it.
pub open spec fn parent_spec(links: Seq<ParentLink>, child: Entity) -> Option<Entity> {
    match at(links, first_index(links, link_of(child))) {
        Some(l) => Some(l.parent),
        None => None,
    }
}

/// The nearest menu among the ancestors of `entity`, looking at most
/// `fuel` links up.
pub open spec fn menu_ancestor_spec(
    links: Seq<ParentLink>,
    ms: Seq<MenuEntry>,
    entity: Entity,
    fuel: nat,
) -> Option<Entity>
    decreases fuel,
{
    if fuel == 0 {
        None
    } else {
        match parent_spec(links, entity) {
            Some(parent) => if find_menu_spec(ms, parent) is Some {
                Some(parent)
            } else {
                menu_ancestor_spec(links, ms, parent, (fuel - 1) as nat)
            },
            None => None,
        }
    }
}

fn find_parent(links: &Vec<ParentLink>, child: Entity) -> (r: Option<Entity>)
    ensures
        r == parent_spec(links@, child),
{
    let mut i: usize = 0;
    while i < links.len()
        invariant
            i <= links.len(),
            forall|j: int| 0 <= j < i ==> !link_of(child)(#[trigger] links@[j]),
        decreases links.len() - i,
    {
        if links[i].child == child {
            proof {
                lemma_first_index_at(links@, link_of(child), i as int);
            }
            return Some(links[i].parent);
        }
        i += 1;
    }
    proof {
        lemma_first_index_none(links@, link_of(child));
    }
    None
}

/// Walks up from `entity` to the nearest menu that contains it. The walk
/// gives up after as many steps as there are links, which is more than any
/// chain of ancestors has.
pub fn find_menu_ancestor(entity: Entity, links: &Vec<ParentLink>, menus: &Vec<MenuEntry>) -> (r:
    Option<Entity>)
    ensures
        r == menu_ancestor_spec(links@, menus@, entity, links@.len()),
{
    let mut current: Entity = entity;
    let mut fuel: usize = links.len();
    while fuel > 0
        invariant
            menu_ancestor_spec(links@, menus@, entity, links@.len()) == menu_ancestor_spec(
                links@,
                menus@,
                current,
                fuel as nat,
            ),
        decreases fuel,
    {
        match find_parent(links, current) {
            Some(parent) => {
                if find_menu(menus, parent).is_some() {
                    return Some(parent);
                }
                current = parent;
            },
            None => {
                return None;
            },
        }
        fuel -= 1;
    }
    None
}

/// A focusable that was added, with its menu found if it had none.
pub open spec fn attached_spec(e: FocusableEntry, links: Seq<ParentLink>, ms: Seq<MenuEntry>) -> FocusableEntry {
    if e.focusable.menu is None {
        FocusableEntry {
            focusable: Focusable {
                menu: menu_ancestor_spec(links, ms, e.entity, links.len()),
                ..e.focusable
            },
            ..e
        }
    } else {
        e
    }
}

/// Whether a focusable that was added asks for the focus: it had no menu
/// yet and its menu is the active one, and it has priority, is enabled and
/// is not for the pointer alone.
pub open spec fn claims_focus(
    links: Seq<ParentLink>,
    ms: Seq<MenuEntry>,
    current_menu: Option<Entity>,
) -> spec_fn(FocusableEntry) -> bool {
    |e: FocusableEntry|
        e.focusable.menu is None && attached_spec(e, links, ms).focusable.menu is Some
            && attached_spec(e, links, ms).focusable.menu == current_menu
            && e.focusable.is_priority && !e.focusable.is_disabled && !e.focusable.is_mouse_only
}

/// The request that the focusables added in one frame give: the focus for
/// the first of them that asks for it.
pub open spec fn new_focus_spec(
    added: Seq<FocusableEntry>,
    links: Seq<ParentLink>,
    ms: Seq<MenuEntry>,
    current_menu: Option<Entity>,
) -> Option<NavRequest> {
    match at(added, first_index(added, claims_focus(links, ms, current_menu))) {
        Some(e) => Some(
            NavRequest::SetFocus { entity: e.entity, interaction_type: UiNavInteractionType::Auto },
        ),
        None => None,
    }
}

/// Takes in the focusables that were added in this frame: each one
/// without a menu gets the nearest menu among its ancestors, and the first
/// one with priority in the active menu asks for the focus.
pub fn setup_new_focusables(
    added: &mut Vec<FocusableEntry>,
    links: &Vec<ParentLink>,
    menus: &Vec<MenuEntry>,
    nav_state: &UiNavState,
) -> (r: Option<NavRequest>)
    ensures
        final(added)@.len() == old(added)@.len(),
        forall|i: int|
            0 <= i < old(added)@.len() ==> #[trigger] final(added)@[i] == attached_spec(
                old(added)@[i],
                links@,
                menus@,
            ),
        r == new_focus_spec(old(added)@, links@, menus@, nav_state.menu),
{
    let ghost before = added@;
    let ghost claims = claims_focus(links@, menus@, nav_state.menu);
    let mut new_focus: Option<Entity> = None;
    let mut i: usize = 0;
    while i < added.len()
        invariant
            i <= added.len(),
            added@.len() == before.len(),
            claims == claims_focus(links@, menus@, nav_state.menu),
            forall|j: int|
                0 <= j < i ==> #[trigger] added@[j] == attached_spec(before[j], links@, menus@),
            forall|j: int| i <= j < before.len() ==> #[trigger] added@[j] == before[j],
            match at(before.take(i as int), first_index(before.take(i as int), claims)) {
                Some(e) => new_focus == Some(e.entity),
                None => new_focus is None,
            },
        decreases added.len() - i,
    {
        proof {
            lemma_take_step(before, i as int);
            lemma_first_index(before.take(i as int), claims);
            if let Some(k) = first_index(before.take(i as int), claims) {
                assert(before.take(i + 1)[k] == before.take(i as int)[k]);
            }
        }
        let mut e = added[i];
        assert(e == before[i as int]);
        if e.focusable.menu.is_none() {
            let menu_parent = find_menu_ancestor(e.entity, links, menus);
            let in_current: bool = match (menu_parent, nav_state.menu) {
                (Some(menu), Some(m)) => m == menu,
                _ => false,
            };
            let asks: bool = e.focusable.is_priority && !e.focusable.is_disabled && in_current
                && !e.focusable.is_mouse_only;
            assert(asks == claims(before[i as int]));
            if asks && new_focus.is_none() {
                new_focus = Some(e.entity);
            }
            e.focusable.menu = menu_parent;
            added.set(i, e);
        } else {
            assert(!claims(before[i as int]));
        }
        i += 1;
    }
    proof {
        lemma_take_all(before);
    }
    match new_focus {
        Some(entity) => Some(
            NavRequest::SetFocus { entity, interaction_type: UiNavInteractionType::Auto },
        ),
        None => None,
    }
}

/// The navigation state after menus have been removed: where the active
/// menu is among them, no menu is active and no direction is held.
pub open spec fn menus_removed_spec(nav_state: UiNavState, removed: Seq<Entity>) -> UiNavState {
    if nav_state.menu matches Some(m) && removed.contains(m) {
        UiNavState { menu: None, ..nav_state.direction_cleared() }
    } else {
        nav_state
    }
}

/// Takes in the menus that were removed in this frame, and asks for a
/// refresh of the focus.
pub fn handle_current_menu_removed(removed: &Vec<Entity>, nav_state: &mut UiNavState) -> (r:
    NavRequest)
    ensures
        r == NavRequest::Refresh,
        *final(nav_state) == menus_removed_spec(*old(nav_state), removed@),
{
    if let Some(menu) = nav_state.menu {
        let mut i: usize = 0;
        let mut found: bool = false;
        while i < removed.len()
            invariant
                i <= removed.len(),
                found == removed@.take(i as int).contains(menu),
            decreases removed.len() - i,
        {
            proof {
                lemma_take_step(removed@, i as int);
                let now = removed@.take(i + 1);
                let then = removed@.take(i as int);
                if then.contains(menu) {
                    let k = choose|k: int| 0 <= k < then.len() && then[k] == menu;
                    assert(now[k] == menu);
                }
                if now.contains(menu) && removed@[i as int] != menu {
                    let k = choose|k: int| 0 <= k < now.len() && now[k] == menu;
                    assert(then[k] == menu);
                }
                if removed@[i as int] == menu {
                    assert(now[i as int] == menu);
                }
            }
            if removed[i] == menu {
                found = true;
            }
            i += 1;
        }
        proof {
            lemma_take_all(removed@);
        }
        if found {
            nav_state.menu = None;
            nav_state.clear_direction();
        }
    }
    NavRequest::Refresh
}

/// Asks for a refresh of the focus where a focusable has changed.
pub fn handle_focusable_changed(any_changed: bool) -> (r: Option<NavRequest>)
    ensures
        r == (if any_changed { Some(NavRequest::Refresh) } else { None }),
{
    if any_changed {
        Some(NavRequest::Refresh)
    } else {
        None
    }
}

/// A focusable with its visibility as of the last layout.
pub open spec fn visibility_updated_spec(e: FocusableEntry) -> FocusableEntry {
    FocusableEntry {
        focusable: Focusable { is_visible: node_visible(e.is_shown, e.size), ..e.focusable },
        ..e
    }
}

/// Notes on every focusable whether it can be seen: it is not hidden and
/// covers some area.
pub fn update_focusable_visibility(focusables: &mut Vec<FocusableEntry>)
    ensures
        final(focusables)@.len() == old(focusables)@.len(),
        forall|i: int|
            0 <= i < old(focusables)@.len() ==> #[trigger] final(focusables)@[i]
                == visibility_updated_spec(old(focusables)@[i]),
{
    let ghost before = focusables@;
    let mut i: usize = 0;
    while i < focusables.len()
        invariant
            i <= focusables.len(),
            focusables@.len() == before.len(),
            forall|j: int| 0 <= j < i ==> #[trigger] focusables@[j] == visibility_updated_spec(before[j]),
            forall|j: int| i <= j < before.len() ==> #[trigger] focusables@[j] == before[j],
        decreases focusables.len() - i,
    {
        let mut e = focusables[i];
        let is_visible: bool = is_node_visible(e.is_shown, e.size);
        if is_visible != e.focusable.is_visible {
            e.focusable.is_visible = is_visible;
            focusables.set(i, e);
        }
        i += 1;
    }
}

/// The navigation state after `delta` microseconds: both timers run while
/// a direction is held.
pub open spec fn ticked_spec(nav_state: UiNavState, delta: u64) -> UiNavState {
    if nav_state.direction is Some {
        UiNavState {
            nav_timer: nav_state.nav_timer.ticked(delta),
            hold_timer: nav_state.hold_timer.ticked(delta),
            ..nav_state
        }
    } else {
        nav_state
    }
}

/// Lets `delta` microseconds go by for the timers of a held direction.
pub fn tick_pressed_timer(delta: u64, nav_state: &mut UiNavState)
    ensures
        *final(nav_state) == ticked_spec(*old(nav_state), delta),
{
    if nav_state.direction.is_some() {
        nav_state.nav_timer.tick(delta);
        nav_state.hold_timer.tick(delta);
    }
}

} // verus!
