use vstd::prelude::*;
use crate::components::{Focusable, NavMenu, Pressable, PressableAction};
use crate::resolve::{is_node_visible, node_visible, Sibling};
use crate::seq_util::{
    first_index, lemma_first_index_at, lemma_first_index_none, lemma_take_all, lemma_take_step,
};
use crate::types::{Entity, UiNavDirection};
use crate::utils::Vec2;

verus! {

/// A menu of the scene.
#[derive(Debug, Clone, Copy, PartialEq, Eq, Structural)]
pub struct MenuEntry {
    pub entity: Entity,
    pub menu: NavMenu,
}

/// A focusable of the scene, with its place as of the last layout.
#[derive(Debug, Clone, Copy, PartialEq, Eq, Structural)]
pub struct FocusableEntry {
    pub entity: Entity,
    pub focusable: Focusable,
    pub size: Vec2,
    pub position: Vec2,
    /// Neither the element nor one of its ancestors is hidden.
    pub is_shown: bool,
}

/// A pressable of the scene, with the focusable that owns it.
#[derive(Debug, Clone, Copy, PartialEq, Eq, Structural)]
pub struct PressableEntry {
    pub entity: Entity,
    pub owner: Entity,
    pub pressable: Pressable,
}

/// Whether the focusable can take the focus of keys and gamepad: it is
/// enabled, not meant for the pointer alone, and can be seen. One with
/// priority need not be seen yet: it may not have been laid out.
pub open spec fn eligible(e: FocusableEntry) -> bool {
    !e.focusable.is_disabled && !e.focusable.is_mouse_only && (e.focusable.is_priority
        || node_visible(e.is_shown, e.size))
}

/// Whether the focusable can take the focus of the pointer alone: it is
/// enabled, meant for the pointer alone, and can be seen.
pub open spec fn mouse_eligible(e: FocusableEntry) -> bool {
    !e.focusable.is_disabled && e.focusable.is_mouse_only && node_visible(e.is_shown, e.size)
}

pub open spec fn focusable_is(entity: Entity) -> spec_fn(FocusableEntry) -> bool {
    |e: FocusableEntry| e.entity == entity
}

pub open spec fn menu_is(entity: Entity) -> spec_fn(MenuEntry) -> bool {
    |e: MenuEntry| e.entity == entity
}

pub open spec fn holds_focus() -> spec_fn(FocusableEntry) -> bool {
    |e: FocusableEntry| eligible(e) && e.focusable.is_focused
}

pub open spec fn holds_mouse_focus() -> spec_fn(FocusableEntry) -> bool {
    |e: FocusableEntry| mouse_eligible(e) && e.focusable.is_focused
}

pub open spec fn pressable_for_press(owner: Entity) -> spec_fn(PressableEntry) -> bool {
    |e: PressableEntry| e.owner == owner && e.pressable.action == PressableAction::Press
}

pub open spec fn pressable_for_direction(owner: Entity, direction: UiNavDirection) -> spec_fn(
    PressableEntry,
) -> bool {
    |e: PressableEntry| e.owner == owner && e.pressable.action.matches_direction_spec(direction)
}

pub open spec fn pressable_held_by(owner: Entity) -> spec_fn(PressableEntry) -> bool {
    |e: PressableEntry| e.owner == owner && e.pressable._is_pressed_focusable
}

pub open spec fn menu_is_open(priority_only: bool) -> spec_fn(MenuEntry) -> bool {
    |e: MenuEntry| !e.menu.is_locked && (e.menu.is_priority || !priority_only)
}

/// The element of `s` at the index that was found, if one was.
pub open spec fn at<T>(s: Seq<T>, i: Option<int>) -> Option<T> {
    match i {
        Some(i) => Some(s[i]),
        None => None,
    }
}

/// The first focusable with the given identity.
pub open spec fn find_focusable_spec(fs: Seq<FocusableEntry>, entity: Entity) -> Option<
    FocusableEntry,
> {
    at(fs, first_index(fs, focusable_is(entity)))
}

/// The first menu with the given identity.
pub open spec fn find_menu_spec(ms: Seq<MenuEntry>, entity: Entity) -> Option<MenuEntry> {
    at(ms, first_index(ms, menu_is(entity)))
}

/// The first focusable that holds the focus of keys and gamepad.
pub open spec fn focused_spec(fs: Seq<FocusableEntry>) -> Option<FocusableEntry> {
    at(fs, first_index(fs, holds_focus()))
}

/// The first focusable that holds the focus of the pointer alone.
pub open spec fn mouse_focused_spec(fs: Seq<FocusableEntry>) -> Option<FocusableEntry> {
    at(fs, first_index(fs, holds_mouse_focus()))
}

/// The first pressable of `owner` that answers to the action key.
pub open spec fn press_pressable_spec(ps: Seq<PressableEntry>, owner: Entity) -> Option<
    PressableEntry,
> {
    at(ps, first_index(ps, pressable_for_press(owner)))
}

/// The first pressable of `owner` that answers to a move in `direction`.
pub open spec fn direction_pressable_spec(
    ps: Seq<PressableEntry>,
    owner: Entity,
    direction: UiNavDirection,
) -> Option<PressableEntry> {
    at(ps, first_index(ps, pressable_for_direction(owner, direction)))
}

/// The first pressable of `owner` that is pressed through it.
pub open spec fn held_pressable_spec(ps: Seq<PressableEntry>, owner: Entity) -> Option<
    PressableEntry,
> {
    at(ps, first_index(ps, pressable_held_by(owner)))
}

/// The menu that takes over when none is active: the first unlocked menu
/// with priority, else the first unlocked menu.
pub open spec fn default_menu_spec(ms: Seq<MenuEntry>) -> Option<Entity> {
    match at(ms, first_index(ms, menu_is_open(true))) {
        Some(m) => Some(m.entity),
        None => match at(ms, first_index(ms, menu_is_open(false))) {
            Some(m) => Some(m.entity),
            None => None,
        },
    }
}

/// Whether the focusable stands for election in `menu`.
pub open spec fn stands_in(e: FocusableEntry, menu: Entity, priority_only: bool) -> bool {
    eligible(e) && e.focusable.menu == Some(menu) && (e.focusable.is_priority || !priority_only)
}

/// The lowest identity among the focusables that stand in `menu`.
pub open spec fn lowest_spec(fs: Seq<FocusableEntry>, menu: Entity, priority_only: bool) -> Option<
    Entity,
>
    decreases fs.len(),
{
    if fs.len() == 0 {
        None
    } else {
        let rest = lowest_spec(fs.drop_last(), menu, priority_only);
        let e = fs.last();
        if stands_in(e, menu, priority_only) {
            match rest {
                Some(m) => if e.entity < m { Some(e.entity) } else { Some(m) },
                None => Some(e.entity),
            }
        } else {
            rest
        }
    }
}

/// The focusable that takes the focus when a menu becomes active: of its
/// eligible focusables with priority the one with the lowest identity, else
/// of all its eligible focusables the one with the lowest identity.
pub open spec fn default_focusable_spec(fs: Seq<FocusableEntry>, menu: Entity) -> Option<Entity> {
    match lowest_spec(fs, menu, true) {
        Some(e) => Some(e),
        None => lowest_spec(fs, menu, false),
    }
}

/// Whether the focusable is one of the siblings among which a move in
/// `menu` is resolved.
pub open spec fn is_sibling(e: FocusableEntry, menu: Entity) -> bool {
    e.focusable.menu == Some(menu) && !e.focusable.is_mouse_only
}

/// What the resolver reads of a focusable.
pub open spec fn sibling_of(e: FocusableEntry) -> Sibling {
    Sibling {
        entity: e.entity,
        is_disabled: e.focusable.is_disabled,
        is_priority: e.focusable.is_priority,
        is_visible: e.is_shown,
        size: e.size,
        position: e.position,
    }
}

/// The siblings of `menu`, in the order of the scene.
pub open spec fn siblings_spec(fs: Seq<FocusableEntry>, menu: Entity) -> Seq<Sibling>
    decreases fs.len(),
{
    if fs.len() == 0 {
        Seq::empty()
    } else {
        let rest = siblings_spec(fs.drop_last(), menu);
        if is_sibling(fs.last(), menu) {
            rest.push(sibling_of(fs.last()))
        } else {
            rest
        }
    }
}

pub fn is_eligible(e: &FocusableEntry) -> (r: bool)
    ensures
        r == eligible(*e),
{
    !e.focusable.is_disabled && !e.focusable.is_mouse_only && (e.focusable.is_priority
        || is_node_visible(e.is_shown, e.size))
}

pub fn is_mouse_eligible(e: &FocusableEntry) -> (r: bool)
    ensures
        r == mouse_eligible(*e),
{
    !e.focusable.is_disabled && e.focusable.is_mouse_only && is_node_visible(e.is_shown, e.size)
}

/// Finds the first focusable with the given identity.
pub fn find_focusable(fs: &Vec<FocusableEntry>, entity: Entity) -> (r: Option<FocusableEntry>)
    ensures
        r == find_focusable_spec(fs@, entity),
{
    let mut i: usize = 0;
    while i < fs.len()
        invariant
            i <= fs.len(),
            forall|j: int| 0 <= j < i ==> !focusable_is(entity)(#[trigger] fs@[j]),
        decreases fs.len() - i,
    {
        if fs[i].entity == entity {
            proof {
                lemma_first_index_at(fs@, focusable_is(entity), i as int);
            }
            return Some(fs[i]);
        }
        i += 1;
    }
    proof {
        lemma_first_index_none(fs@, focusable_is(entity));
    }
    None
}

/// Finds the first menu with the given identity.
pub fn find_menu(ms: &Vec<MenuEntry>, entity: Entity) -> (r: Option<MenuEntry>)
    ensures
        r == find_menu_spec(ms@, entity),
{
    let mut i: usize = 0;
    while i < ms.len()
        invariant
            i <= ms.len(),
            forall|j: int| 0 <= j < i ==> !menu_is(entity)(#[trigger] ms@[j]),
        decreases ms.len() - i,
    {
        if ms[i].entity == entity {
            proof {
                lemma_first_index_at(ms@, menu_is(entity), i as int);
            }
            return Some(ms[i]);
        }
        i += 1;
    }
    proof {
        lemma_first_index_none(ms@, menu_is(entity));
    }
    None
}

/// Finds the focusable that holds the focus of keys and gamepad.
pub fn find_focused(fs: &Vec<FocusableEntry>) -> (r: Option<FocusableEntry>)
    ensures
        r == focused_spec(fs@),
{
    let mut i: usize = 0;
    while i < fs.len()
        invariant
            i <= fs.len(),
            forall|j: int| 0 <= j < i ==> !holds_focus()(#[trigger] fs@[j]),
        decreases fs.len() - i,
    {
        if is_eligible(&fs[i]) && fs[i].focusable.is_focused {
            proof {
                lemma_first_index_at(fs@, holds_focus(), i as int);
            }
            return Some(fs[i]);
        }
        i += 1;
    }
    proof {
        lemma_first_index_none(fs@, holds_focus());
    }
    None
}

/// Finds the focusable that holds the focus of the pointer alone.
pub fn find_mouse_focused(fs: &Vec<FocusableEntry>) -> (r: Option<FocusableEntry>)
    ensures
        r == mouse_focused_spec(fs@),
{
    let mut i: usize = 0;
    while i < fs.len()
        invariant
            i <= fs.len(),
            forall|j: int| 0 <= j < i ==> !holds_mouse_focus()(#[trigger] fs@[j]),
        decreases fs.len() - i,
    {
        if is_mouse_eligible(&fs[i]) && fs[i].focusable.is_focused {
            proof {
                lemma_first_index_at(fs@, holds_mouse_focus(), i as int);
            }
            return Some(fs[i]);
        }
        i += 1;
    }
    proof {
        lemma_first_index_none(fs@, holds_mouse_focus());
    }
    None
}

/// Finds the pressable of `owner` that answers to the action key.
pub fn find_press_pressable(ps: &Vec<PressableEntry>, owner: Entity) -> (r: Option<PressableEntry>)
    ensures
        r == press_pressable_spec(ps@, owner),
{
    let mut i: usize = 0;
    while i < ps.len()
        invariant
            i <= ps.len(),
            forall|j: int| 0 <= j < i ==> !pressable_for_press(owner)(#[trigger] ps@[j]),
        decreases ps.len() - i,
    {
        if ps[i].owner == owner && ps[i].pressable.action == PressableAction::Press {
            proof {
                lemma_first_index_at(ps@, pressable_for_press(owner), i as int);
            }
            return Some(ps[i]);
        }
        i += 1;
    }
    proof {
        lemma_first_index_none(ps@, pressable_for_press(owner));
    }
    None
}

/// Finds the pressable of `owner` that answers to a move in `direction`.
pub fn find_direction_pressable(
    ps: &Vec<PressableEntry>,
    owner: Entity,
    direction: UiNavDirection,
) -> (r: Option<PressableEntry>)
    ensures
        r == direction_pressable_spec(ps@, owner, direction),
{
    let mut i: usize = 0;
    while i < ps.len()
        invariant
            i <= ps.len(),
            forall|j: int|
                0 <= j < i ==> !pressable_for_direction(owner, direction)(#[trigger] ps@[j]),
        decreases ps.len() - i,
    {
        if ps[i].owner == owner && ps[i].pressable.action.matches_direction(direction) {
            proof {
                lemma_first_index_at(ps@, pressable_for_direction(owner, direction), i as int);
            }
            return Some(ps[i]);
        }
        i += 1;
    }
    proof {
        lemma_first_index_none(ps@, pressable_for_direction(owner, direction));
    }
    None
}

/// Finds the pressable of `owner` that is pressed through it.
pub fn find_held_pressable(ps: &Vec<PressableEntry>, owner: Entity) -> (r: Option<PressableEntry>)
    ensures
        r == held_pressable_spec(ps@, owner),
{
    let mut i: usize = 0;
    while i < ps.len()
        invariant
            i <= ps.len(),
            forall|j: int| 0 <= j < i ==> !pressable_held_by(owner)(#[trigger] ps@[j]),
        decreases ps.len() - i,
    {
        if ps[i].owner == owner && ps[i].pressable._is_pressed_focusable {
            proof {
                lemma_first_index_at(ps@, pressable_held_by(owner), i as int);
            }
            return Some(ps[i]);
        }
        i += 1;
    }
    proof {
        lemma_first_index_none(ps@, pressable_held_by(owner));
    }
    None
}

fn first_open_menu(ms: &Vec<MenuEntry>, priority_only: bool) -> (r: Option<MenuEntry>)
    ensures
        r == at(ms@, first_index(ms@, menu_is_open(priority_only))),
{
    let mut i: usize = 0;
    while i < ms.len()
        invariant
            i <= ms.len(),
            forall|j: int| 0 <= j < i ==> !menu_is_open(priority_only)(#[trigger] ms@[j]),
        decreases ms.len() - i,
    {
        if !ms[i].menu.is_locked && (ms[i].menu.is_priority || !priority_only) {
            proof {
                lemma_first_index_at(ms@, menu_is_open(priority_only), i as int);
            }
            return Some(ms[i]);
        }
        i += 1;
    }
    proof {
        lemma_first_index_none(ms@, menu_is_open(priority_only));
    }
    None
}

/// Picks the menu that takes over when none is active.
pub fn default_menu(ms: &Vec<MenuEntry>) -> (r: Option<Entity>)
    ensures
        r == default_menu_spec(ms@),
{
    match first_open_menu(ms, true) {
        Some(m) => Some(m.entity),
        None => match first_open_menu(ms, false) {
            Some(m) => Some(m.entity),
            None => None,
        },
    }
}

fn lowest(fs: &Vec<FocusableEntry>, menu: Entity, priority_only: bool) -> (r: Option<Entity>)
    ensures
        r == lowest_spec(fs@, menu, priority_only),
{
    let mut best: Option<Entity> = None;
    let mut i: usize = 0;
    while i < fs.len()
        invariant
            i <= fs.len(),
            best == lowest_spec(fs@.take(i as int), menu, priority_only),
        decreases fs.len() - i,
    {
        proof {
            lemma_take_step(fs@, i as int);
        }
        let e = &fs[i];
        let in_menu: bool = match e.focusable.menu {
            Some(m) => m == menu,
            None => false,
        };
        if is_eligible(e) && in_menu && (e.focusable.is_priority || !priority_only) {
            best =
            match best {
                Some(m) => if e.entity < m { Some(e.entity) } else { Some(m) },
                None => Some(e.entity),
            };
        }
        i += 1;
    }
    proof {
        lemma_take_all(fs@);
    }
    best
}

/// Picks the focusable that takes the focus when `menu` becomes active.
pub fn default_focusable(fs: &Vec<FocusableEntry>, menu: Entity) -> (r: Option<Entity>)
    ensures
        r == default_focusable_spec(fs@, menu),
{
    match lowest(fs, menu, true) {
        Some(e) => Some(e),
        None => lowest(fs, menu, false),
    }
}

/// Collects the siblings among which a move in `menu` is resolved.
pub fn siblings_of(fs: &Vec<FocusableEntry>, menu: Entity) -> (r: Vec<Sibling>)
    ensures
        r@ == siblings_spec(fs@, menu),
{
    let mut out: Vec<Sibling> = Vec::new();
    let mut i: usize = 0;
    while i < fs.len()
        invariant
            i <= fs.len(),
            out@ == siblings_spec(fs@.take(i as int), menu),
        decreases fs.len() - i,
    {
        proof {
            lemma_take_step(fs@, i as int);
        }
        let e = &fs[i];
        let in_menu: bool = match e.focusable.menu {
            Some(m) => m == menu,
            None => false,
        };
        if in_menu && !e.focusable.is_mouse_only {
            out.push(
                Sibling {
                    entity: e.entity,
                    is_disabled: e.focusable.is_disabled,
                    is_priority: e.focusable.is_priority,
                    is_visible: e.is_shown,
                    size: e.size,
                    position: e.position,
                },
            );
        }
        i += 1;
    }
    proof {
        lemma_take_all(fs@);
    }
    out
}

} // verus!
