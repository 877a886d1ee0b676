use vstd::prelude::*;
use crate::events::{NavRequest, UiNavCancelEvent, UiNavClickEvent, UiNavFocusChangedEvent};
use crate::plugin::{
    cancels_spec, clicks_spec, focus_changes_spec, focused_phase, refreshed_phase, served_spec,
    shown_focusable,
};
use crate::resolve::{current_node, is_candidate, node_of, Sibling};
use crate::resolve_laws::{lemma_no_wrap_boundary, lemma_resolve_returns_candidate};
use crate::resources::UiNavState;
use crate::seq_util::lemma_first_index;
use crate::spatial_map::{Phase, Step, UiSpatialMap};
use crate::types::{Entity, UiNavDirection, UiNavInteractionType};
use crate::world::{
    direction_pressable_spec, eligible, find_focusable_spec, focusable_is, holds_focus, is_sibling, lowest_spec,
    sibling_of, siblings_spec, stands_in, FocusableEntry, MenuEntry, PressableEntry,
};

verus! {

/// Requests that each leave the state alone and give no click leave it
/// alone together and give no click.
pub proof fn lemma_run_idle(
    map: UiSpatialMap,
    ms: Seq<MenuEntry>,
    fs: Seq<FocusableEntry>,
    ps: Seq<PressableEntry>,
    requests: Seq<NavRequest>,
    phase: Phase,
)
    requires
        forall|i: int|
            0 <= i < requests.len() ==> #[trigger] map.step_spec(ms, fs, ps, requests[i], phase)
                == (Step { map, click: None }),
    ensures
        map.run_spec(ms, fs, ps, requests, phase) == map,
        map.clicks_spec(ms, fs, ps, requests, phase) == Seq::<UiNavClickEvent>::empty(),
    decreases requests.len(),
{
    if requests.len() > 0 {
        let rest = requests.drop_last();
        assert forall|i: int| 0 <= i < rest.len() implies #[trigger] map.step_spec(
            ms,
            fs,
            ps,
            rest[i],
            phase,
        ) == (Step { map, click: None }) by {
            assert(rest[i] == requests[i]);
        }
        lemma_run_idle(map, ms, fs, ps, rest, phase);
        assert(requests.last() == requests[requests.len() - 1]);
    }
}

/// Whether the request is one that a locked navigation does not serve and
/// that does not unlock it: anything but `SetFocus` and `Unlock`.
pub open spec fn is_suppressed(request: NavRequest) -> bool {
    !(request is SetFocus) && !(request is Unlock)
}

/// While the navigation is locked, moves, presses and releases of the
/// action key, cancels and refreshes of the focus change nothing and tell
/// nothing: no click, no cancel, no change of focus.
pub proof fn lemma_lock_suppresses(
    start: UiSpatialMap,
    ms: Seq<MenuEntry>,
    fs: Seq<FocusableEntry>,
    ps: Seq<PressableEntry>,
    requests: Seq<NavRequest>,
)
    requires
        start.locked,
        forall|i: int| 0 <= i < requests.len() ==> is_suppressed(#[trigger] requests[i]),
    ensures
        served_spec(start, ms, fs, ps, requests) == start,
        clicks_spec(start, ms, fs, ps, requests) == Seq::<UiNavClickEvent>::empty(),
        cancels_spec(served_spec(start, ms, fs, ps, requests), requests) == Seq::<
            UiNavCancelEvent,
        >::empty(),
        focus_changes_spec(start, served_spec(start, ms, fs, ps, requests)) == Seq::<
            UiNavFocusChangedEvent,
        >::empty(),
{
    assert forall|i: int| 0 <= i < requests.len() implies #[trigger] start.step_spec(
        ms,
        fs,
        ps,
        requests[i],
        Phase::Lock,
    ) == (Step { map: start, click: None }) by {
        assert(is_suppressed(requests[i]));
    }
    lemma_run_idle(start, ms, fs, ps, requests, Phase::Lock);
    assert(refreshed_phase(start, ms, fs, ps, requests) == start);
    assert forall|i: int| 0 <= i < requests.len() implies #[trigger] start.step_spec(
        ms,
        fs,
        ps,
        requests[i],
        Phase::Focus,
    ) == (Step { map: start, click: None }) by {
        assert(is_suppressed(requests[i]));
    }
    lemma_run_idle(start, ms, fs, ps, requests, Phase::Focus);
    assert(focused_phase(start, ms, fs, ps, requests) == start);
    lemma_run_idle(start, ms, fs, ps, requests, Phase::Action);
    lemma_run_idle(start, ms, fs, ps, requests, Phase::Movement);
    assert(clicks_spec(start, ms, fs, ps, requests) =~= Seq::<UiNavClickEvent>::empty());
    assert(focus_changes_spec(start, start) =~= Seq::<UiNavFocusChangedEvent>::empty());
}

/// A request to set the focus on an eligible focusable is served whether
/// the navigation is locked or not: the focusable takes the focus, its menu
/// becomes the active one, and the change is told with the kind of
/// interaction that the request names.
pub proof fn lemma_set_focus_is_served(
    start: UiSpatialMap,
    ms: Seq<MenuEntry>,
    fs: Seq<FocusableEntry>,
    ps: Seq<PressableEntry>,
    entity: Entity,
    interaction_type: UiNavInteractionType,
)
    requires
        find_focusable_spec(fs, entity) matches Some(e) && eligible(e),
        start.focusable != Some(entity),
    ensures
        ({
            let requests = seq![NavRequest::SetFocus { entity, interaction_type }];
            let end = served_spec(start, ms, fs, ps, requests);
            &&& end.focusable == Some(entity)
            &&& end.menu == find_focusable_spec(fs, entity)->0.focusable.menu
            &&& end.locked == start.locked
            &&& focus_changes_spec(start, end) == seq![
                UiNavFocusChangedEvent { entity, interaction_type },
            ]
        }),
{
    let request = NavRequest::SetFocus { entity, interaction_type };
    let requests = seq![request];
    assert(requests.drop_last() =~= Seq::<NavRequest>::empty());
    assert(requests.last() == request);
    let none = Seq::<NavRequest>::empty();
    assert forall|m: UiSpatialMap, phase: Phase| #[trigger]
        m.run_spec(ms, fs, ps, requests, phase) == m.step_spec(ms, fs, ps, request, phase).map by {
        assert(m.run_spec(ms, fs, ps, none, phase) == m);
    }
    assert(!requests.contains(NavRequest::Refresh));
    let end = served_spec(start, ms, fs, ps, requests);
    assert(refreshed_phase(start, ms, fs, ps, requests) == start);
    let focused = start.set_focus_spec(ms, fs, entity, interaction_type);
    assert(focused_phase(start, ms, fs, ps, requests) == focused);
    assert(end == focused);
    assert(focus_changes_spec(start, end) =~= seq![
        UiNavFocusChangedEvent { entity, interaction_type },
    ]);
}

/// A request to set the focus on a disabled focusable changes nothing.
pub proof fn lemma_set_focus_skips_disabled(
    map: UiSpatialMap,
    ms: Seq<MenuEntry>,
    fs: Seq<FocusableEntry>,
    entity: Entity,
    interaction_type: UiNavInteractionType,
)
    requires
        find_focusable_spec(fs, entity) matches Some(e) && e.focusable.is_disabled,
    ensures
        map.set_focus_spec(ms, fs, entity, interaction_type) == map,
{
}

/// The focus, where there is one, is on a focusable of the scene that is
/// eligible, and so enabled.
pub open spec fn focus_sound(map: UiSpatialMap, fs: Seq<FocusableEntry>) -> bool {
    map.focusable matches Some(entity) ==> exists|i: int|
        0 <= i < fs.len() && (#[trigger] fs[i]).entity == entity && eligible(fs[i])
}

/// The lowest identity that stands in a menu is that of an eligible
/// focusable of the scene.
pub proof fn lemma_lowest_is_eligible(
    fs: Seq<FocusableEntry>,
    menu: Entity,
    priority_only: bool,
)
    ensures
        lowest_spec(fs, menu, priority_only) matches Some(entity) ==> exists|i: int|
            0 <= i < fs.len() && (#[trigger] fs[i]).entity == entity && stands_in(
                fs[i],
                menu,
                priority_only,
            ),
    decreases fs.len(),
{
    if fs.len() > 0 {
        let rest = fs.drop_last();
        lemma_lowest_is_eligible(rest, menu, priority_only);
        if let Some(entity) = lowest_spec(fs, menu, priority_only) {
            if stands_in(fs.last(), menu, priority_only) && fs.last().entity == entity {
                assert(fs[fs.len() - 1] == fs.last());
            } else {
                let i = choose|i: int|
                    0 <= i < rest.len() && (#[trigger] rest[i]).entity == entity && stands_in(
                        rest[i],
                        menu,
                        priority_only,
                    );
                assert(fs[i] == rest[i]);
            }
        }
    }
}

/// Whether `s` is what the resolver reads of a focusable of the scene that
/// belongs to `menu` and is not for the pointer alone.
pub open spec fn has_source(fs: Seq<FocusableEntry>, menu: Entity, s: Sibling) -> bool {
    exists|i: int| 0 <= i < fs.len() && is_sibling(#[trigger] fs[i], menu) && sibling_of(fs[i]) == s
}

/// Every sibling of a menu is what the resolver reads of a focusable of
/// the scene that belongs to the menu and is not for the pointer alone.
pub proof fn lemma_sibling_is_member(fs: Seq<FocusableEntry>, menu: Entity)
    ensures
        forall|k: int|
            0 <= k < siblings_spec(fs, menu).len() ==> has_source(
                fs,
                menu,
                #[trigger] siblings_spec(fs, menu)[k],
            ),
    decreases fs.len(),
{
    if fs.len() > 0 {
        let rest = fs.drop_last();
        lemma_sibling_is_member(rest, menu);
        let all = siblings_spec(fs, menu);
        let before = siblings_spec(rest, menu);
        assert forall|k: int| 0 <= k < all.len() implies has_source(fs, menu, #[trigger] all[k]) by {
            if k < before.len() {
                assert(all[k] == before[k]);
                assert(has_source(rest, menu, before[k]));
                let i = choose|i: int|
                    0 <= i < rest.len() && is_sibling(#[trigger] rest[i], menu) && sibling_of(
                        rest[i],
                    ) == before[k];
                assert(fs[i] == rest[i]);
            } else {
                assert(is_sibling(fs[fs.len() - 1], menu));
            }
        }
    }
}

/// Every request leaves the focus on an eligible focusable.
pub proof fn lemma_step_keeps_focus_sound(
    map: UiSpatialMap,
    ms: Seq<MenuEntry>,
    fs: Seq<FocusableEntry>,
    ps: Seq<PressableEntry>,
    request: NavRequest,
    phase: Phase,
)
    requires
        focus_sound(map, fs),
    ensures
        focus_sound(map.step_spec(ms, fs, ps, request, phase).map, fs),
{
    let next = map.step_spec(ms, fs, ps, request, phase).map;
    if next.focusable != map.focusable {
        match request {
            NavRequest::SetFocus { entity, interaction_type } => {
                lemma_first_index(fs, focusable_is(entity));
                lemma_lowest_is_eligible(fs, entity, true);
                lemma_lowest_is_eligible(fs, entity, false);
            },
            NavRequest::Movement(direction) => {
                let menu = map.menu->0;
                let siblings = siblings_spec(fs, menu);
                lemma_resolve_returns_candidate(map.focusable, direction, map.wraps(ms), siblings);
                lemma_sibling_is_member(fs, menu);
                let target = next.focusable->0;
                let k = choose|k: int|
                    0 <= k < siblings.len() && is_candidate(#[trigger] siblings[k])
                        && siblings[k].entity == target;
                assert(has_source(fs, menu, siblings[k]));
                let i = choose|i: int|
                    0 <= i < fs.len() && is_sibling(#[trigger] fs[i], menu) && sibling_of(fs[i])
                        == siblings[k];
                assert(eligible(fs[i]));
            },
            _ => {},
        }
    }
}

/// The requests of a phase leave the focus on an eligible focusable.
pub proof fn lemma_run_keeps_focus_sound(
    map: UiSpatialMap,
    ms: Seq<MenuEntry>,
    fs: Seq<FocusableEntry>,
    ps: Seq<PressableEntry>,
    requests: Seq<NavRequest>,
    phase: Phase,
)
    requires
        focus_sound(map, fs),
    ensures
        focus_sound(map.run_spec(ms, fs, ps, requests, phase), fs),
    decreases requests.len(),
{
    if requests.len() > 0 {
        lemma_run_keeps_focus_sound(map, ms, fs, ps, requests.drop_last(), phase);
        lemma_step_keeps_focus_sound(
            map.run_spec(ms, fs, ps, requests.drop_last(), phase),
            ms,
            fs,
            ps,
            requests.last(),
            phase,
        );
    }
}

/// Whatever the requests of a frame, the focus ends on a focusable of the
/// scene that is eligible: a disabled focusable never holds it.
pub proof fn lemma_focus_never_on_disabled(
    nav_state: UiNavState,
    ms: Seq<MenuEntry>,
    fs: Seq<FocusableEntry>,
    ps: Seq<PressableEntry>,
    requests: Seq<NavRequest>,
)
    ensures
        focus_sound(
            served_spec(UiSpatialMap::start_spec(nav_state, fs, ps), ms, fs, ps, requests),
            fs,
        ),
{
    let start = UiSpatialMap::start_spec(nav_state, fs, ps);
    lemma_first_index(fs, holds_focus());
    assert(focus_sound(start, fs));
    lemma_run_keeps_focus_sound(start, ms, fs, ps, requests, Phase::Lock);
    let locked = start.run_spec(ms, fs, ps, requests, Phase::Lock);
    let refreshed = refreshed_phase(start, ms, fs, ps, requests);
    assert(focus_sound(refreshed, fs)) by {
        if refreshed.focusable != locked.focusable {
            let menu = refreshed.menu->0;
            lemma_lowest_is_eligible(fs, menu, true);
            lemma_lowest_is_eligible(fs, menu, false);
        }
    }
    lemma_run_keeps_focus_sound(refreshed, ms, fs, ps, requests, Phase::Focus);
    let focused = focused_phase(start, ms, fs, ps, requests);
    lemma_run_keeps_focus_sound(focused, ms, fs, ps, requests, Phase::Action);
    let acted = focused.run_spec(ms, fs, ps, requests, Phase::Action);
    lemma_run_keeps_focus_sound(acted, ms, fs, ps, requests, Phase::Movement);
}

/// Whether no two focusables of the scene share an identity.
pub open spec fn distinct_entities(fs: Seq<FocusableEntry>) -> bool {
    forall|i: int, j: int|
        0 <= i < j < fs.len() ==> (#[trigger] fs[i]).entity != (#[trigger] fs[j]).entity
}

/// At the end of a frame, at most one focusable for keys and gamepad is
/// focused: of two different focusables of a scene with distinct
/// identities, not both are left focused.
pub proof fn lemma_at_most_one_focused(
    fs: Seq<FocusableEntry>,
    start: UiSpatialMap,
    end: UiSpatialMap,
    i: int,
    j: int,
)
    requires
        distinct_entities(fs),
        0 <= i < fs.len(),
        0 <= j < fs.len(),
        i != j,
        !fs[i].focusable.is_mouse_only,
        !fs[j].focusable.is_mouse_only,
    ensures
        !(shown_focusable(fs[i], start, end).focusable.is_focused && shown_focusable(
            fs[j],
            start,
            end,
        ).focusable.is_focused),
{
    if i < j {
        assert(fs[i].entity != fs[j].entity);
    } else {
        assert(fs[j].entity != fs[i].entity);
    }
}

/// The focus, where there is one, is on an eligible focusable of the
/// active menu.
pub open spec fn focus_in_menu(map: UiSpatialMap, fs: Seq<FocusableEntry>) -> bool {
    map.focusable matches Some(entity) ==> exists|i: int|
        0 <= i < fs.len() && (#[trigger] fs[i]).entity == entity && eligible(fs[i])
            && fs[i].focusable.menu == map.menu
}

/// Every request keeps the focus in the active menu: focus and menu
/// change together.
pub proof fn lemma_step_keeps_focus_in_menu(
    map: UiSpatialMap,
    ms: Seq<MenuEntry>,
    fs: Seq<FocusableEntry>,
    ps: Seq<PressableEntry>,
    request: NavRequest,
    phase: Phase,
)
    requires
        focus_in_menu(map, fs),
    ensures
        focus_in_menu(map.step_spec(ms, fs, ps, request, phase).map, fs),
{
    let next = map.step_spec(ms, fs, ps, request, phase).map;
    if next.focusable != map.focusable || next.menu != map.menu {
        match request {
            NavRequest::SetFocus { entity, interaction_type } => {
                lemma_first_index(fs, focusable_is(entity));
                lemma_lowest_is_eligible(fs, entity, true);
                lemma_lowest_is_eligible(fs, entity, false);
            },
            NavRequest::Movement(direction) => {
                let menu = map.menu->0;
                let siblings = siblings_spec(fs, menu);
                lemma_resolve_returns_candidate(map.focusable, direction, map.wraps(ms), siblings);
                lemma_sibling_is_member(fs, menu);
                let target = next.focusable->0;
                let k = choose|k: int|
                    0 <= k < siblings.len() && is_candidate(#[trigger] siblings[k])
                        && siblings[k].entity == target;
                assert(has_source(fs, menu, siblings[k]));
                let i = choose|i: int|
                    0 <= i < fs.len() && is_sibling(#[trigger] fs[i], menu) && sibling_of(fs[i])
                        == siblings[k];
                assert(eligible(fs[i]));
            },
            _ => {},
        }
    }
}

/// The requests of a phase keep the focus in the active menu.
pub proof fn lemma_run_keeps_focus_in_menu(
    map: UiSpatialMap,
    ms: Seq<MenuEntry>,
    fs: Seq<FocusableEntry>,
    ps: Seq<PressableEntry>,
    requests: Seq<NavRequest>,
    phase: Phase,
)
    requires
        focus_in_menu(map, fs),
    ensures
        focus_in_menu(map.run_spec(ms, fs, ps, requests, phase), fs),
    decreases requests.len(),
{
    if requests.len() > 0 {
        lemma_run_keeps_focus_in_menu(map, ms, fs, ps, requests.drop_last(), phase);
        lemma_step_keeps_focus_in_menu(
            map.run_spec(ms, fs, ps, requests.drop_last(), phase),
            ms,
            fs,
            ps,
            requests.last(),
            phase,
        );
    }
}

/// A frame that starts with the focus in the active menu ends with the
/// focus in the active menu.
pub proof fn lemma_focus_stays_in_menu(
    start: UiSpatialMap,
    ms: Seq<MenuEntry>,
    fs: Seq<FocusableEntry>,
    ps: Seq<PressableEntry>,
    requests: Seq<NavRequest>,
)
    requires
        focus_in_menu(start, fs),
    ensures
        focus_in_menu(served_spec(start, ms, fs, ps, requests), fs),
{
    lemma_run_keeps_focus_in_menu(start, ms, fs, ps, requests, Phase::Lock);
    let locked = start.run_spec(ms, fs, ps, requests, Phase::Lock);
    let refreshed = refreshed_phase(start, ms, fs, ps, requests);
    assert(focus_in_menu(refreshed, fs)) by {
        if refreshed != locked && refreshed.focusable is Some {
            let menu = refreshed.menu->0;
            lemma_lowest_is_eligible(fs, menu, true);
            lemma_lowest_is_eligible(fs, menu, false);
        }
    }
    lemma_run_keeps_focus_in_menu(refreshed, ms, fs, ps, requests, Phase::Focus);
    let focused = focused_phase(start, ms, fs, ps, requests);
    lemma_run_keeps_focus_in_menu(focused, ms, fs, ps, requests, Phase::Action);
    let acted = focused.run_spec(ms, fs, ps, requests, Phase::Action);
    lemma_run_keeps_focus_in_menu(acted, ms, fs, ps, requests, Phase::Movement);
}

/// In a menu that does not wrap, a move from a focused element that has
/// no pressable for the direction and no other candidate in the direction
/// changes nothing: at the edge of the menu the focus stays.
pub proof fn lemma_move_at_the_edge(
    map: UiSpatialMap,
    ms: Seq<MenuEntry>,
    fs: Seq<FocusableEntry>,
    ps: Seq<PressableEntry>,
    direction: UiNavDirection,
)
    requires
        map.menu is Some,
        !map.wraps(ms),
        map.focusable is Some,
        direction_pressable_spec(ps, map.focusable->0, direction) is None,
        current_node(siblings_spec(fs, map.menu->0), map.focusable) is Some,
        forall|i: int|
            0 <= i < siblings_spec(fs, map.menu->0).len() && is_candidate(
                #[trigger] siblings_spec(fs, map.menu->0)[i],
            ) && map.focusable != Some(siblings_spec(fs, map.menu->0)[i].entity)
                ==> !current_node(
                siblings_spec(fs, map.menu->0),
                map.focusable,
            )->0.distance_to_spec(
                node_of(siblings_spec(fs, map.menu->0)[i]),
            ).in_direction(direction),
    ensures
        map.movement_spec(ms, fs, ps, direction) == map,
{
    lemma_no_wrap_boundary(
        map.focusable,
        direction,
        siblings_spec(fs, map.menu->0),
    );
}

} // verus!
