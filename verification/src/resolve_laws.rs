use vstd::prelude::*;
use crate::focus_node::{FocusNode, FocusTarget};
use crate::resolve::{
    current_node, first_priority, fold_furthest, fold_nearest, is_candidate, make_target,
    node_of, origin_node, pick_target, resolve_2d_spec, takes_part, Sibling,
};
use crate::types::{Entity, UiNavDirection};

verus! {

/// The nearest target, where there is one, is a sibling that takes part in
/// the move and lies in its direction.
pub proof fn lemma_nearest_is_member(
    siblings: Seq<Sibling>,
    focused: Option<Entity>,
    current: FocusNode,
    direction: UiNavDirection,
    cycles: bool,
)
    ensures
        fold_nearest(siblings, focused, current, direction, cycles) matches Some(t) ==> exists|
            i: int,
        |
            0 <= i < siblings.len() && takes_part(
                #[trigger] siblings[i],
                focused,
                current,
                direction,
                cycles,
            ) && t == make_target(current, direction, siblings[i]) && t.is_in_direction,
    decreases siblings.len(),
{
    if siblings.len() > 0 {
        let rest = siblings.drop_last();
        lemma_nearest_is_member(rest, focused, current, direction, cycles);
        let acc = fold_nearest(rest, focused, current, direction, cycles);
        let now = fold_nearest(siblings, focused, current, direction, cycles);
        if let Some(t) = now {
            if now == acc {
                let i = choose|i: int|
                    0 <= i < rest.len() && takes_part(
                        #[trigger] rest[i],
                        focused,
                        current,
                        direction,
                        cycles,
                    ) && t == make_target(current, direction, rest[i]) && t.is_in_direction;
                assert(siblings[i] == rest[i]);
            } else {
                let last = siblings.len() - 1;
                assert(takes_part(siblings[last], focused, current, direction, cycles));
            }
        }
    }
}

/// The furthest target, where there is one, is a sibling that takes part in
/// the move, in a menu that wraps, and does not lie in its direction.
pub proof fn lemma_furthest_is_member(
    siblings: Seq<Sibling>,
    focused: Option<Entity>,
    current: FocusNode,
    direction: UiNavDirection,
    cycles: bool,
)
    ensures
        fold_furthest(siblings, focused, current, direction, cycles) matches Some(t) ==> cycles
            && exists|i: int|
            0 <= i < siblings.len() && takes_part(
                #[trigger] siblings[i],
                focused,
                current,
                direction,
                cycles,
            ) && t == make_target(current, direction, siblings[i]) && !t.is_in_direction,
    decreases siblings.len(),
{
    if siblings.len() > 0 {
        let rest = siblings.drop_last();
        lemma_furthest_is_member(rest, focused, current, direction, cycles);
        let acc = fold_furthest(rest, focused, current, direction, cycles);
        let now = fold_furthest(siblings, focused, current, direction, cycles);
        if let Some(t) = now {
            if now == acc {
                let i = choose|i: int|
                    0 <= i < rest.len() && takes_part(
                        #[trigger] rest[i],
                        focused,
                        current,
                        direction,
                        cycles,
                    ) && t == make_target(current, direction, rest[i]) && !t.is_in_direction;
                assert(siblings[i] == rest[i]);
            } else {
                let last = siblings.len() - 1;
                assert(takes_part(siblings[last], focused, current, direction, cycles));
            }
        }
    }
}

/// There is a nearest target exactly when some sibling that takes part in
/// the move lies in its direction.
pub proof fn lemma_nearest_exists_iff(
    siblings: Seq<Sibling>,
    focused: Option<Entity>,
    current: FocusNode,
    direction: UiNavDirection,
    cycles: bool,
)
    ensures
        fold_nearest(siblings, focused, current, direction, cycles) is Some <==> exists|i: int|
            0 <= i < siblings.len() && takes_part(
                #[trigger] siblings[i],
                focused,
                current,
                direction,
                cycles,
            ) && make_target(current, direction, siblings[i]).is_in_direction,
    decreases siblings.len(),
{
    lemma_nearest_is_member(siblings, focused, current, direction, cycles);
    if siblings.len() > 0 {
        let rest = siblings.drop_last();
        lemma_nearest_exists_iff(rest, focused, current, direction, cycles);
        if fold_nearest(siblings, focused, current, direction, cycles) is None {
            assert forall|i: int|
                0 <= i < siblings.len() && takes_part(
                    #[trigger] siblings[i],
                    focused,
                    current,
                    direction,
                    cycles,
                ) implies !make_target(current, direction, siblings[i]).is_in_direction by {
                if i < rest.len() {
                    assert(siblings[i] == rest[i]);
                }
            }
        }
    }
}

/// There is a furthest target exactly when the menu wraps and some sibling
/// that takes part in the move does not lie in its direction.
pub proof fn lemma_furthest_exists_iff(
    siblings: Seq<Sibling>,
    focused: Option<Entity>,
    current: FocusNode,
    direction: UiNavDirection,
    cycles: bool,
)
    ensures
        fold_furthest(siblings, focused, current, direction, cycles) is Some <==> cycles
            && exists|i: int|
            0 <= i < siblings.len() && takes_part(
                #[trigger] siblings[i],
                focused,
                current,
                direction,
                cycles,
            ) && !make_target(current, direction, siblings[i]).is_in_direction,
    decreases siblings.len(),
{
    lemma_furthest_is_member(siblings, focused, current, direction, cycles);
    if siblings.len() > 0 {
        let rest = siblings.drop_last();
        lemma_furthest_exists_iff(rest, focused, current, direction, cycles);
        if fold_furthest(siblings, focused, current, direction, cycles) is None {
            assert forall|i: int|
                0 <= i < siblings.len() && takes_part(
                    #[trigger] siblings[i],
                    focused,
                    current,
                    direction,
                    cycles,
                ) && cycles implies make_target(current, direction, siblings[i]).is_in_direction by {
                if i < rest.len() {
                    assert(siblings[i] == rest[i]);
                }
            }
        }
    }
}

/// Whether `e` is strictly nearer than `t`: aligned where `t` is not, or
/// aligned alike and strictly closer.
pub open spec fn strictly_nearer(e: FocusTarget, t: FocusTarget) -> bool {
    (e.is_prefer && !t.is_prefer) || (e.is_prefer == t.is_prefer && e.distance.total
        < t.distance.total)
}

/// A target is aligned exactly if it overlaps the current node across the
/// line of travel.
pub proof fn lemma_aligned_iff_overlaps(current: FocusNode, direction: UiNavDirection, s: Sibling)
    ensures
        make_target(current, direction, s).is_prefer == (make_target(
            current,
            direction,
            s,
        ).overlap > 0),
{
}

/// The nearest target is a best one: no sibling that takes part in the
/// move and lies in its direction is strictly nearer. So where no two such
/// siblings are aligned alike and equally far, the nearest target does not
/// depend on the order of the siblings.
pub proof fn lemma_nearest_is_best(
    siblings: Seq<Sibling>,
    focused: Option<Entity>,
    current: FocusNode,
    direction: UiNavDirection,
    cycles: bool,
)
    ensures
        fold_nearest(siblings, focused, current, direction, cycles) matches Some(t) ==> forall|
            i: int,
        |
            0 <= i < siblings.len() && takes_part(
                #[trigger] siblings[i],
                focused,
                current,
                direction,
                cycles,
            ) && make_target(current, direction, siblings[i]).is_in_direction ==> !strictly_nearer(
                make_target(current, direction, siblings[i]),
                t,
            ),
    decreases siblings.len(),
{
    if siblings.len() > 0 {
        let rest = siblings.drop_last();
        lemma_nearest_is_best(rest, focused, current, direction, cycles);
        lemma_nearest_is_member(rest, focused, current, direction, cycles);
        lemma_nearest_exists_iff(rest, focused, current, direction, cycles);
        let acc = fold_nearest(rest, focused, current, direction, cycles);
        let last = siblings.last();
        if let Some(t) = fold_nearest(siblings, focused, current, direction, cycles) {
            lemma_aligned_iff_overlaps(current, direction, last);
            assert forall|i: int|
                0 <= i < siblings.len() && takes_part(
                    #[trigger] siblings[i],
                    focused,
                    current,
                    direction,
                    cycles,
                ) && make_target(current, direction, siblings[i]).is_in_direction implies !strictly_nearer(
                make_target(current, direction, siblings[i]),
                t,
            ) by {
                if i < rest.len() {
                    assert(siblings[i] == rest[i]);
                    let a = acc->0;
                    let k = choose|k: int|
                        0 <= k < rest.len() && takes_part(
                            #[trigger] rest[k],
                            focused,
                            current,
                            direction,
                            cycles,
                        ) && a == make_target(current, direction, rest[k]) && a.is_in_direction;
                    lemma_aligned_iff_overlaps(current, direction, rest[k]);
                } else {
                    if let Some(a) = acc {
                        let k = choose|k: int|
                            0 <= k < rest.len() && takes_part(
                                #[trigger] rest[k],
                                focused,
                                current,
                                direction,
                                cycles,
                            ) && a == make_target(current, direction, rest[k]) && a.is_in_direction;
                        lemma_aligned_iff_overlaps(current, direction, rest[k]);
                    }
                }
            }
        }
    }
}

/// A move lands only on a candidate other than the focused element: an
/// enabled sibling that can be seen. In a menu that does not wrap, the
/// target lies in the direction of the move.
pub proof fn lemma_pick_is_candidate(
    siblings: Seq<Sibling>,
    focused: Option<Entity>,
    current: FocusNode,
    direction: UiNavDirection,
    cycles: bool,
)
    ensures
        pick_target(siblings, focused, current, direction, cycles) matches Some(e) ==> focused
            != Some(e) && exists|i: int|
            0 <= i < siblings.len() && is_candidate(#[trigger] siblings[i]) && siblings[i].entity
                == e && (!cycles ==> current.distance_to_spec(node_of(siblings[i])).in_direction(
                direction,
            )),
{
    lemma_nearest_is_member(siblings, focused, current, direction, cycles);
    lemma_furthest_is_member(siblings, focused, current, direction, cycles);
}

/// A move finds a target exactly when some sibling takes part in it: in a
/// menu that wraps, a candidate along the axis; in one that does not, a
/// candidate in the direction.
pub proof fn lemma_pick_exists_iff(
    siblings: Seq<Sibling>,
    focused: Option<Entity>,
    current: FocusNode,
    direction: UiNavDirection,
    cycles: bool,
)
    ensures
        pick_target(siblings, focused, current, direction, cycles) is Some <==> exists|i: int|
            0 <= i < siblings.len() && takes_part(
                #[trigger] siblings[i],
                focused,
                current,
                direction,
                cycles,
            ),
{
    lemma_nearest_exists_iff(siblings, focused, current, direction, cycles);
    lemma_furthest_exists_iff(siblings, focused, current, direction, cycles);
    if pick_target(siblings, focused, current, direction, cycles) is Some {
    } else {
        assert forall|i: int| 0 <= i < siblings.len() implies !takes_part(
            #[trigger] siblings[i],
            focused,
            current,
            direction,
            cycles,
        ) by {
            if takes_part(siblings[i], focused, current, direction, cycles) {
                if make_target(current, direction, siblings[i]).is_in_direction {
                } else {
                    assert(cycles);
                }
            }
        }
    }
}

/// The first priority candidate, where there is one, is an enabled sibling
/// that can be seen.
pub proof fn lemma_first_priority_is_candidate(siblings: Seq<Sibling>)
    ensures
        first_priority(siblings) matches Some(e) ==> exists|i: int|
            0 <= i < siblings.len() && is_candidate(#[trigger] siblings[i]) && siblings[i].entity
                == e && siblings[i].is_priority,
    decreases siblings.len(),
{
    if siblings.len() > 0 {
        let rest = siblings.drop_last();
        lemma_first_priority_is_candidate(rest);
        if let Some(e) = first_priority(siblings) {
            if first_priority(rest) is Some {
                let i = choose|i: int|
                    0 <= i < rest.len() && is_candidate(#[trigger] rest[i]) && rest[i].entity == e
                        && rest[i].is_priority;
                assert(siblings[i] == rest[i]);
            } else {
                let last = siblings.len() - 1;
                assert(is_candidate(siblings[last]));
            }
        }
    }
}

/// The current node, where there is one, is the node of an enabled sibling
/// that can be seen and that is the focused element.
pub proof fn lemma_current_is_candidate(siblings: Seq<Sibling>, focused: Option<Entity>)
    ensures
        current_node(siblings, focused) matches Some(n) ==> exists|i: int|
            0 <= i < siblings.len() && is_candidate(#[trigger] siblings[i]) && focused == Some(
                siblings[i].entity,
            ) && n == node_of(siblings[i]),
        current_node(siblings, focused) is None ==> forall|i: int|
            0 <= i < siblings.len() && is_candidate(#[trigger] siblings[i]) ==> focused != Some(
                siblings[i].entity,
            ),
    decreases siblings.len(),
{
    if siblings.len() > 0 {
        let rest = siblings.drop_last();
        lemma_current_is_candidate(rest, focused);
        if let Some(n) = current_node(siblings, focused) {
            if current_node(rest, focused) is Some {
                let i = choose|i: int|
                    0 <= i < rest.len() && is_candidate(#[trigger] rest[i]) && focused == Some(
                        rest[i].entity,
                    ) && n == node_of(rest[i]);
                assert(siblings[i] == rest[i]);
            } else {
                let last = siblings.len() - 1;
                assert(is_candidate(siblings[last]));
            }
        } else {
            assert forall|i: int|
                0 <= i < siblings.len() && is_candidate(#[trigger] siblings[i]) implies focused
                != Some(siblings[i].entity) by {
                if i < rest.len() {
                    assert(siblings[i] == rest[i]);
                }
            }
        }
    }
}

/// The resolver never returns a disabled or hidden element: what it
/// returns is the identity of an enabled sibling that can be seen.
pub proof fn lemma_resolve_returns_candidate(
    focused: Option<Entity>,
    direction: UiNavDirection,
    cycles: bool,
    siblings: Seq<Sibling>,
)
    ensures
        resolve_2d_spec(focused, direction, cycles, siblings) matches Some(e) ==> exists|i: int|
            0 <= i < siblings.len() && is_candidate(#[trigger] siblings[i]) && siblings[i].entity
                == e,
{
    lemma_first_priority_is_candidate(siblings);
    match current_node(siblings, focused) {
        Some(current) => {
            lemma_pick_is_candidate(siblings, focused, current, direction, cycles);
        },
        None => {
            lemma_pick_is_candidate(
                siblings,
                focused,
                origin_node(),
                UiNavDirection::DownRight,
                cycles,
            );
        },
    }
}

/// An element of which every sibling entry is disabled is never returned.
pub proof fn lemma_resolve_skips_disabled(
    focused: Option<Entity>,
    direction: UiNavDirection,
    cycles: bool,
    siblings: Seq<Sibling>,
    entity: Entity,
)
    requires
        forall|i: int|
            0 <= i < siblings.len() && (#[trigger] siblings[i]).entity == entity
                ==> siblings[i].is_disabled,
    ensures
        resolve_2d_spec(focused, direction, cycles, siblings) != Some(entity),
{
    lemma_resolve_returns_candidate(focused, direction, cycles, siblings);
}

/// A move from a focused candidate never lands on the focused element
/// itself.
pub proof fn lemma_resolve_moves_away(
    focused: Option<Entity>,
    direction: UiNavDirection,
    cycles: bool,
    siblings: Seq<Sibling>,
)
    requires
        current_node(siblings, focused) is Some,
    ensures
        resolve_2d_spec(focused, direction, cycles, siblings) != focused,
{
    let current = current_node(siblings, focused)->0;
    lemma_current_is_candidate(siblings, focused);
    lemma_pick_is_candidate(siblings, focused, current, direction, cycles);
}

/// In a menu that does not wrap, a move from a focused candidate finds no
/// target exactly when no other candidate lies in its direction: at the
/// edge of the menu the move has no effect.
pub proof fn lemma_no_wrap_boundary(
    focused: Option<Entity>,
    direction: UiNavDirection,
    siblings: Seq<Sibling>,
)
    requires
        current_node(siblings, focused) is Some,
    ensures
        resolve_2d_spec(focused, direction, false, siblings) is None <==> forall|i: int|
            0 <= i < siblings.len() && is_candidate(#[trigger] siblings[i]) && focused != Some(
                siblings[i].entity,
            ) ==> !current_node(siblings, focused)->0.distance_to_spec(
                node_of(siblings[i]),
            ).in_direction(direction),
{
    let current = current_node(siblings, focused)->0;
    lemma_pick_exists_iff(siblings, focused, current, direction, false);
    if resolve_2d_spec(focused, direction, false, siblings) is None {
        assert forall|i: int|
            0 <= i < siblings.len() && is_candidate(#[trigger] siblings[i]) && focused != Some(
                siblings[i].entity,
            ) implies !current.distance_to_spec(node_of(siblings[i])).in_direction(direction) by {
            assert(!takes_part(siblings[i], focused, current, direction, false));
        }
    } else {
        let i = choose|i: int|
            0 <= i < siblings.len() && takes_part(
                #[trigger] siblings[i],
                focused,
                current,
                direction,
                false,
            );
        assert(is_candidate(siblings[i]));
    }
}

/// Resolving twice from the same focus, direction, wrap flag and siblings
/// gives the same target.
pub proof fn lemma_resolve_deterministic(
    focused: Option<Entity>,
    direction: UiNavDirection,
    cycles: bool,
    first: Seq<Sibling>,
    second: Seq<Sibling>,
)
    requires
        first =~= second,
    ensures
        resolve_2d_spec(focused, direction, cycles, first) == resolve_2d_spec(
            focused,
            direction,
            cycles,
            second,
        ),
{
}

} // verus!
