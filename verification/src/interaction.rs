use vstd::prelude::*;
use crate::components::Focusable;
use crate::events::{NavRequest, UiNavClickEvent};
use crate::resources::UiNavState;
use crate::types::{Entity, UiNavInteractionType};
use crate::world::{find_menu, find_menu_spec, FocusableEntry, MenuEntry};

verus! {

/// What the pointer does to an element.
#[derive(Debug, Clone, Copy, PartialEq, Eq, Hash, Structural)]
pub enum Interaction {
    /// The pointer button went down on the element and is still down.
    Pressed,
    /// The pointer is over the element.
    Hovered,
    /// Neither.
    Idle,
}

/// What the pointer does to one focusable in a frame.
#[derive(Debug, Clone, Copy, PartialEq, Eq, Structural)]
pub struct PointerInput {
    pub interaction: Interaction,
    /// The pointer is inside the element.
    pub is_mouse_over: bool,
}

/// What the handling of the pointer has to tell.
pub struct PointerOutcome {
    pub clicks: Vec<UiNavClickEvent>,
    pub requests: Vec<NavRequest>,
}

/// What holds for every focusable while the pointer is handled.
#[derive(Debug, Clone, Copy, PartialEq, Eq, Structural)]
pub struct PointerContext {
    /// Some focusable is held down by the action key.
    pub is_blocked: bool,
    /// The active menu.
    pub menu: Option<Entity>,
    /// The active menu is locked.
    pub is_menu_locked: bool,
}

/// Whether `menu` names a menu of the scene that is locked.
pub open spec fn menu_locked_spec(ms: Seq<MenuEntry>, menu: Option<Entity>) -> bool {
    menu matches Some(m) && (find_menu_spec(ms, m) matches Some(e) && e.menu.is_locked)
}

/// Whether some focusable is held down by the action key.
pub open spec fn blocked_spec(fs: Seq<FocusableEntry>) -> bool {
    exists|i: int| 0 <= i < fs.len() && (#[trigger] fs[i]).focusable.pressed()
}

/// What holds while the pointer is handled in the given scene.
pub open spec fn context_spec(nav_state: UiNavState, ms: Seq<MenuEntry>, fs: Seq<FocusableEntry>) -> PointerContext {
    PointerContext {
        is_blocked: blocked_spec(fs),
        menu: nav_state.menu,
        is_menu_locked: menu_locked_spec(ms, nav_state.menu),
    }
}

/// Whether the pointer reaches the focusable: it is enabled, and it is in
/// the active menu or neither that menu nor its own is locked.
pub open spec fn is_reached(e: FocusableEntry, ctx: PointerContext, ms: Seq<MenuEntry>) -> bool {
    !e.focusable.is_disabled && (e.focusable.menu == ctx.menu || !(ctx.is_menu_locked
        || menu_locked_spec(ms, e.focusable.menu)))
}

pub open spec fn pointer_pressed(input: PointerInput) -> bool {
    input.interaction == Interaction::Pressed
}

pub open spec fn pointer_hovered(input: PointerInput) -> bool {
    match input.interaction {
        Interaction::Pressed => input.is_mouse_over,
        Interaction::Hovered => true,
        Interaction::Idle => false,
    }
}

/// Whether the pointer has left a focusable that is for the pointer alone.
pub open spec fn pointer_left(e: FocusableEntry, input: PointerInput) -> bool {
    e.focusable.is_mouse_only && !pointer_hovered(input) && !pointer_pressed(input)
}

/// A focusable after the pointer has been handled. One that the pointer
/// does not reach stays as it was. One for the pointer alone that the
/// pointer has left loses focus, press and hover. Else press and hover are
/// those of the pointer, and a press that begins notes whether it began
/// while nothing was held down by the action key.
pub open spec fn interacted_spec(
    e: FocusableEntry,
    input: PointerInput,
    ctx: PointerContext,
    ms: Seq<MenuEntry>,
) -> FocusableEntry {
    if !is_reached(e, ctx, ms) {
        e
    } else if pointer_left(e, input) {
        FocusableEntry {
            focusable: Focusable {
                is_focused: false,
                is_pressed_interaction: false,
                is_pressed_interaction_from_active: false,
                is_hovered_interaction: false,
                ..e.focusable
            },
            ..e
        }
    } else if pointer_pressed(input) != e.focusable.is_pressed_interaction {
        FocusableEntry {
            focusable: Focusable {
                is_pressed_interaction: pointer_pressed(input),
                is_pressed_interaction_from_active: !ctx.is_blocked,
                is_hovered_interaction: pointer_hovered(input),
                ..e.focusable
            },
            ..e
        }
    } else {
        FocusableEntry {
            focusable: Focusable { is_hovered_interaction: pointer_hovered(input), ..e.focusable },
            ..e
        }
    }
}

/// Whether the pointer clicks the focusable: a press that began while
/// nothing was held down by the action key ends with the pointer still
/// inside.
pub open spec fn gives_click(
    e: FocusableEntry,
    input: PointerInput,
    ctx: PointerContext,
    ms: Seq<MenuEntry>,
) -> bool {
    is_reached(e, ctx, ms) && !pointer_left(e, input) && e.focusable.is_pressed_interaction
        && e.focusable.is_pressed_interaction_from_active && !pointer_pressed(input)
        && input.is_mouse_over
}

/// Whether the pointer asks for the focus on the focusable: it hovers or
/// presses inside it, the focusable does not hold the focus, and nothing is
/// held down by the action key.
pub open spec fn asks_focus(
    e: FocusableEntry,
    input: PointerInput,
    ctx: PointerContext,
    ms: Seq<MenuEntry>,
) -> bool {
    is_reached(e, ctx, ms) && (input.interaction == Interaction::Hovered || (input.interaction
        == Interaction::Pressed && input.is_mouse_over)) && !e.focusable.is_active()
        && !ctx.is_blocked
}

/// The clicks that the pointer gives on the first `n` focusables.
pub open spec fn pointer_clicks_spec(
    fs: Seq<FocusableEntry>,
    inputs: Seq<PointerInput>,
    ctx: PointerContext,
    ms: Seq<MenuEntry>,
    n: nat,
) -> Seq<UiNavClickEvent>
    decreases n,
{
    if n == 0 {
        Seq::empty()
    } else {
        let before = pointer_clicks_spec(fs, inputs, ctx, ms, (n - 1) as nat);
        let i = n - 1;
        if i < fs.len() && i < inputs.len() && gives_click(fs[i], inputs[i], ctx, ms) {
            before.push(UiNavClickEvent(fs[i].entity))
        } else {
            before
        }
    }
}

/// The requests for focus that the pointer gives on the first `n`
/// focusables.
pub open spec fn pointer_requests_spec(
    fs: Seq<FocusableEntry>,
    inputs: Seq<PointerInput>,
    ctx: PointerContext,
    ms: Seq<MenuEntry>,
    n: nat,
) -> Seq<NavRequest>
    decreases n,
{
    if n == 0 {
        Seq::empty()
    } else {
        let before = pointer_requests_spec(fs, inputs, ctx, ms, (n - 1) as nat);
        let i = n - 1;
        if i < fs.len() && i < inputs.len() && asks_focus(fs[i], inputs[i], ctx, ms) {
            before.push(
                NavRequest::SetFocus {
                    entity: fs[i].entity,
                    interaction_type: UiNavInteractionType::Mouse,
                },
            )
        } else {
            before
        }
    }
}

/// The number of focusables that have an input: the shorter of the two
/// lengths.
pub open spec fn paired(fs: Seq<FocusableEntry>, inputs: Seq<PointerInput>) -> nat {
    if fs.len() <= inputs.len() {
        fs.len()
    } else {
        inputs.len()
    }
}

fn is_blocked(fs: &Vec<FocusableEntry>) -> (r: bool)
    ensures
        r == blocked_spec(fs@),
{
    let mut i: usize = 0;
    while i < fs.len()
        invariant
            i <= fs.len(),
            forall|j: int| 0 <= j < i ==> !(#[trigger] fs@[j]).focusable.pressed(),
        decreases fs.len() - i,
    {
        if fs[i].focusable.is_pressed() {
            return true;
        }
        i += 1;
    }
    false
}

fn is_menu_locked(ms: &Vec<MenuEntry>, menu: Option<Entity>) -> (r: bool)
    ensures
        r == menu_locked_spec(ms@, menu),
{
    match menu {
        Some(m) => match find_menu(ms, m) {
            Some(e) => e.menu.is_locked,
            None => false,
        },
        None => false,
    }
}

/// What the pointer does to one focusable.
pub struct Interacted {
    pub entry: FocusableEntry,
    pub click: bool,
    pub asks_focus: bool,
}

/// Handles what the pointer does to one focusable.
pub fn interact(e: &FocusableEntry, input: &PointerInput, ctx: &PointerContext, menus: &Vec<MenuEntry>) -> (r:
    Interacted)
    ensures
        r.entry == interacted_spec(*e, *input, *ctx, menus@),
        r.click == gives_click(*e, *input, *ctx, menus@),
        r.asks_focus == asks_focus(*e, *input, *ctx, menus@),
{
    let is_in_current_menu: bool = e.focusable.menu == ctx.menu;
    let reached: bool = !e.focusable.is_disabled && (is_in_current_menu || !(ctx.is_menu_locked
        || is_menu_locked(menus, e.focusable.menu)));
    if !reached {
        return Interacted { entry: *e, click: false, asks_focus: false };
    }
    let is_mouse_over: bool = input.is_mouse_over;
    let is_pressed: bool = input.interaction == Interaction::Pressed;
    let is_hovered: bool = match input.interaction {
        Interaction::Pressed => is_mouse_over,
        Interaction::Hovered => true,
        Interaction::Idle => false,
    };
    let mut focusable = e.focusable;
    let mut click: bool = false;
    if focusable.is_mouse_only && !is_hovered && !is_pressed {
        focusable.is_focused = false;
        focusable.is_pressed_interaction = false;
        focusable.is_pressed_interaction_from_active = false;
        focusable.is_hovered_interaction = false;
    } else {
        if is_pressed != focusable.is_pressed_interaction {
            click = focusable.is_pressed_interaction
                && focusable.is_pressed_interaction_from_active && !is_pressed && is_mouse_over;
            focusable.is_pressed_interaction = is_pressed;
            focusable.is_pressed_interaction_from_active = !ctx.is_blocked;
        }
        focusable.is_hovered_interaction = is_hovered;
    }
    let asks: bool = (input.interaction == Interaction::Hovered || (input.interaction
        == Interaction::Pressed && is_mouse_over)) && !e.focusable.active() && !ctx.is_blocked;
    Interacted {
        entry: FocusableEntry {
            entity: e.entity,
            focusable,
            size: e.size,
            position: e.position,
            is_shown: e.is_shown,
        },
        click,
        asks_focus: asks,
    }
}

/// Handles what the pointer does in one frame. `inputs[i]` is what it
/// does to `focusables[i]`; a focusable without an input is left alone.
/// Nothing happens while the navigation is locked.
pub fn handle_interactions(
    focusables: &mut Vec<FocusableEntry>,
    inputs: &Vec<PointerInput>,
    menus: &Vec<MenuEntry>,
    nav_state: &UiNavState,
) -> (out: PointerOutcome)
    ensures
        final(focusables)@.len() == old(focusables)@.len(),
        nav_state.locked ==> final(focusables)@ == old(focusables)@ && out.clicks@.len() == 0
            && out.requests@.len() == 0,
        !nav_state.locked ==> ({
            let ctx = context_spec(*nav_state, menus@, old(focusables)@);
            let n = paired(old(focusables)@, inputs@);
            &&& forall|i: int|
                0 <= i < n ==> #[trigger] final(focusables)@[i] == interacted_spec(
                    old(focusables)@[i],
                    inputs@[i],
                    ctx,
                    menus@,
                )
            &&& forall|i: int|
                n <= i < old(focusables)@.len() ==> #[trigger] final(focusables)@[i] == old(
                    focusables,
                )@[i]
            &&& out.clicks@ == pointer_clicks_spec(old(focusables)@, inputs@, ctx, menus@, n)
            &&& out.requests@ == pointer_requests_spec(old(focusables)@, inputs@, ctx, menus@, n)
        }),
{
    let mut clicks: Vec<UiNavClickEvent> = Vec::new();
    let mut requests: Vec<NavRequest> = Vec::new();
    if nav_state.locked {
        return PointerOutcome { clicks, requests };
    }
    let ghost before = focusables@;
    let ctx = PointerContext {
        is_blocked: is_blocked(focusables),
        menu: nav_state.menu,
        is_menu_locked: is_menu_locked(menus, nav_state.menu),
    };
    let n: usize = if focusables.len() <= inputs.len() {
        focusables.len()
    } else {
        inputs.len()
    };
    let mut i: usize = 0;
    while i < n
        invariant
            i <= n,
            n == paired(before, inputs@),
            focusables@.len() == before.len(),
            ctx == context_spec(*nav_state, menus@, before),
            forall|j: int|
                0 <= j < i ==> #[trigger] focusables@[j] == interacted_spec(
                    before[j],
                    inputs@[j],
                    ctx,
                    menus@,
                ),
            forall|j: int| i <= j < before.len() ==> #[trigger] focusables@[j] == before[j],
            clicks@ == pointer_clicks_spec(before, inputs@, ctx, menus@, i as nat),
            requests@ == pointer_requests_spec(before, inputs@, ctx, menus@, i as nat),
        decreases n - i,
    {
        let e = focusables[i];
        let step = interact(&e, &inputs[i], &ctx, menus);
        if step.click {
            clicks.push(UiNavClickEvent(e.entity));
        }
        if step.asks_focus {
            requests.push(
                NavRequest::SetFocus {
                    entity: e.entity,
                    interaction_type: UiNavInteractionType::Mouse,
                },
            );
        }
        focusables.set(i, step.entry);
        i += 1;
    }
    PointerOutcome { clicks, requests }
}

} // verus!
