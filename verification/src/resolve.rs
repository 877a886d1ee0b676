use vstd::prelude::*;
use crate::focus_node::{FocusNode, FocusNodeDistance, FocusTarget};
use crate::seq_util::{lemma_take_all, lemma_take_step};
use crate::types::{Entity, UiNavDirection};
use crate::utils::{
    distance_equal, equal_spec, f32_equal, roots_equal_spec, Vec2, MAX_DISTANCE_SQ,
};

verus! {

/// The side of the square that stands in for the focus when nothing is
/// focused: a hundred pixels, in lattice units.
pub const ORIGIN_SIZE: i32 = 1_000_000;

/// Where that square is centered, along both axes: a hundred pixels up and
/// left of the origin.
pub const ORIGIN_POSITION: i32 = -1_000_000;

/// What the resolver reads of one element of the active menu.
#[derive(Debug, Clone, Copy, PartialEq, Eq, Structural)]
pub struct Sibling {
    pub entity: Entity,
    pub is_disabled: bool,
    pub is_priority: bool,
    /// Neither the element nor one of its ancestors is hidden.
    pub is_visible: bool,
    pub size: Vec2,
    pub position: Vec2,
}

/// A node can be seen when it is not hidden and covers some area.
pub open spec fn node_visible(is_visible: bool, size: Vec2) -> bool {
    is_visible && size.x > 0 && size.y > 0
}

/// Whether a node that is shown with the given size can be seen.
pub fn is_node_visible(is_visible: bool, size: Vec2) -> (r: bool)
    ensures
        r == node_visible(is_visible, size),
{
    is_visible && size.x > 0 && size.y > 0
}

/// Whether the resolver may land on `s`: it is enabled and can be seen.
pub open spec fn is_candidate(s: Sibling) -> bool {
    !s.is_disabled && node_visible(s.is_visible, s.size)
}

/// The geometry of a sibling.
pub open spec fn node_of(s: Sibling) -> FocusNode {
    FocusNode { menu: None, size: s.size, position: s.position, is_priority: s.is_priority }
}

/// The node that stands in for the focus when nothing is focused: a square
/// of a hundred pixels, up and left of the origin.
pub open spec fn origin_node() -> FocusNode {
    FocusNode {
        menu: None,
        size: Vec2 { x: ORIGIN_SIZE, y: ORIGIN_SIZE },
        position: Vec2 { x: ORIGIN_POSITION, y: ORIGIN_POSITION },
        is_priority: false,
    }
}

/// The node of the first candidate that is `focused`.
pub open spec fn current_node(siblings: Seq<Sibling>, focused: Option<Entity>) -> Option<FocusNode>
    decreases siblings.len(),
{
    if siblings.len() == 0 {
        None
    } else {
        match current_node(siblings.drop_last(), focused) {
            Some(n) => Some(n),
            None => {
                let s = siblings.last();
                if is_candidate(s) && focused == Some(s.entity) {
                    Some(node_of(s))
                } else {
                    None
                }
            },
        }
    }
}

/// The first candidate that is flagged as a priority.
pub open spec fn first_priority(siblings: Seq<Sibling>) -> Option<Entity>
    decreases siblings.len(),
{
    if siblings.len() == 0 {
        None
    } else {
        match first_priority(siblings.drop_last()) {
            Some(e) => Some(e),
            None => {
                let s = siblings.last();
                if is_candidate(s) && s.is_priority {
                    Some(s.entity)
                } else {
                    None
                }
            },
        }
    }
}

/// Whether a move in `direction` prefers targets that overlap the current
/// node across the line of travel, and what that overlap is. A move up or
/// down looks at the overlap along x, a move left or right at the overlap
/// along y, a diagonal move at neither.
pub open spec fn alignment(distance: FocusNodeDistance, direction: UiNavDirection) -> (bool, i64) {
    match direction {
        UiNavDirection::Up | UiNavDirection::Down => (distance.is_overlap_x, distance.overlap_x),
        UiNavDirection::Left | UiNavDirection::Right => (
            distance.is_overlap_y,
            distance.overlap_y,
        ),
        _ => (false, 0i64),
    }
}

/// The sibling `s` as a target of a move in `direction` from `current`.
pub open spec fn make_target(current: FocusNode, direction: UiNavDirection, s: Sibling) -> FocusTarget {
    let distance = current.distance_to_spec(node_of(s));
    FocusTarget {
        entity: s.entity,
        position: s.position,
        distance,
        is_prefer: alignment(distance, direction).0,
        is_in_direction: distance.in_direction(direction),
        is_in_axis: distance.along_axis(direction),
        overlap: alignment(distance, direction).1,
    }
}

/// Whether `e` takes the place of `acc` as the nearest target: it lies in
/// the direction of the move, and either it is aligned where `acc` is not,
/// or the two are aligned alike and `e` overlaps where `acc` does not or is
/// strictly closer.
pub open spec fn beats_nearest(acc: FocusTarget, e: FocusTarget) -> bool {
    e.is_in_direction && ((acc.is_prefer == e.is_prefer && (e.overlap > 0 && acc.overlap <= 0
        || e.distance.total < acc.distance.total)) || (!acc.is_prefer && e.is_prefer))
}

/// Whether `e` takes the place of `acc` as the furthest target on the far
/// side: it does not lie in the direction of the move, and either it is
/// aligned where `acc` is not, or the two are aligned alike and `e` overlaps
/// where `acc` does not, or is strictly further, or ties with `acc` in
/// distance and overlap and lies further left.
pub open spec fn beats_furthest(acc: FocusTarget, e: FocusTarget) -> bool {
    !e.is_in_direction && ((acc.is_prefer == e.is_prefer && (e.overlap > 0 && acc.overlap <= 0
        || e.distance.total > acc.distance.total || (roots_equal_spec(
        e.distance.total as int,
        acc.distance.total as int,
    ) && equal_spec(e.overlap as int, acc.overlap as int) && e.position.x < acc.position.x)))
        || (!acc.is_prefer && e.is_prefer))
}

/// The nearest target after `e` has been seen.
pub open spec fn nearest_step(acc: Option<FocusTarget>, e: FocusTarget) -> Option<FocusTarget> {
    match acc {
        Some(a) => if beats_nearest(a, e) { Some(e) } else { Some(a) },
        None => if e.is_in_direction { Some(e) } else { None },
    }
}

/// The furthest target on the far side after `e` has been seen. Nothing is
/// kept unless the menu wraps.
pub open spec fn furthest_step(acc: Option<FocusTarget>, e: FocusTarget, cycles: bool) -> Option<
    FocusTarget,
> {
    if !cycles {
        None
    } else {
        match acc {
            Some(a) => if beats_furthest(a, e) { Some(e) } else { Some(a) },
            None => if !e.is_in_direction { Some(e) } else { None },
        }
    }
}

/// Whether the sibling takes part in a move from `current`: it is a
/// candidate other than the focused element, and it lies in the direction,
/// or, in a menu that wraps, along its axis.
pub open spec fn takes_part(
    s: Sibling,
    focused: Option<Entity>,
    current: FocusNode,
    direction: UiNavDirection,
    cycles: bool,
) -> bool {
    let e = make_target(current, direction, s);
    is_candidate(s) && focused != Some(s.entity) && if cycles {
        e.is_in_axis
    } else {
        e.is_in_direction
    }
}

/// The nearest target in the direction of the move, over the siblings in
/// their order.
pub open spec fn fold_nearest(
    siblings: Seq<Sibling>,
    focused: Option<Entity>,
    current: FocusNode,
    direction: UiNavDirection,
    cycles: bool,
) -> Option<FocusTarget>
    decreases siblings.len(),
{
    if siblings.len() == 0 {
        None
    } else {
        let acc = fold_nearest(siblings.drop_last(), focused, current, direction, cycles);
        let s = siblings.last();
        if takes_part(s, focused, current, direction, cycles) {
            nearest_step(acc, make_target(current, direction, s))
        } else {
            acc
        }
    }
}

/// The furthest target on the far side of the move, over the siblings in
/// their order.
pub open spec fn fold_furthest(
    siblings: Seq<Sibling>,
    focused: Option<Entity>,
    current: FocusNode,
    direction: UiNavDirection,
    cycles: bool,
) -> Option<FocusTarget>
    decreases siblings.len(),
{
    if siblings.len() == 0 {
        None
    } else {
        let acc = fold_furthest(siblings.drop_last(), focused, current, direction, cycles);
        let s = siblings.last();
        if takes_part(s, focused, current, direction, cycles) {
            furthest_step(acc, make_target(current, direction, s), cycles)
        } else {
            acc
        }
    }
}

/// The target of a move from `current` in `direction`: the nearest target
/// if there is one, else, in a menu that wraps, the furthest on the far
/// side.
pub open spec fn pick_target(
    siblings: Seq<Sibling>,
    focused: Option<Entity>,
    current: FocusNode,
    direction: UiNavDirection,
    cycles: bool,
) -> Option<Entity> {
    match fold_nearest(siblings, focused, current, direction, cycles) {
        Some(t) => Some(t.entity),
        None => if cycles {
            match fold_furthest(siblings, focused, current, direction, cycles) {
                Some(t) => Some(t.entity),
                None => None,
            }
        } else {
            None
        },
    }
}

/// The element that a move in `direction` lands on. With no candidate
/// focused, the first priority candidate is taken; with none of those
/// either, the move starts down and right from [`origin_node`].
pub open spec fn resolve_2d_spec(
    focused: Option<Entity>,
    direction: UiNavDirection,
    cycles: bool,
    siblings: Seq<Sibling>,
) -> Option<Entity> {
    match current_node(siblings, focused) {
        Some(current) => pick_target(siblings, focused, current, direction, cycles),
        None => match first_priority(siblings) {
            Some(e) => Some(e),
            None => pick_target(
                siblings,
                focused,
                origin_node(),
                UiNavDirection::DownRight,
                cycles,
            ),
        },
    }
}

fn build_target(current: &FocusNode, direction: UiNavDirection, s: &Sibling) -> (r: FocusTarget)
    ensures
        r == make_target(*current, direction, *s),
        r.distance.total <= MAX_DISTANCE_SQ,
{
    let node = FocusNode {
        menu: None,
        size: s.size,
        position: s.position,
        is_priority: s.is_priority,
    };
    let distance = current.distance_to(&node);
    let is_prefer: bool = match direction {
        UiNavDirection::Up | UiNavDirection::Down => distance.is_overlap_x,
        UiNavDirection::Left | UiNavDirection::Right => distance.is_overlap_y,
        _ => false,
    };
    let overlap: i64 = match direction {
        UiNavDirection::Up | UiNavDirection::Down => distance.overlap_x,
        UiNavDirection::Left | UiNavDirection::Right => distance.overlap_y,
        _ => 0,
    };
    FocusTarget {
        entity: s.entity,
        position: s.position,
        is_in_direction: distance.is_in_direction(direction),
        is_in_axis: distance.is_along_axis(direction),
        is_prefer,
        overlap,
        distance,
    }
}

fn is_focused(focused: Option<Entity>, entity: Entity) -> (r: bool)
    ensures
        r == (focused == Some(entity)),
{
    match focused {
        Some(f) => f == entity,
        None => false,
    }
}

fn fold_targets(
    siblings: &Vec<Sibling>,
    focused: Option<Entity>,
    current: &FocusNode,
    direction: UiNavDirection,
    cycles: bool,
) -> (r: (Option<FocusTarget>, Option<FocusTarget>))
    ensures
        r.0 == fold_nearest(siblings@, focused, *current, direction, cycles),
        r.1 == fold_furthest(siblings@, focused, *current, direction, cycles),
{
    let mut nearest: Option<FocusTarget> = None;
    let mut furthest: Option<FocusTarget> = None;
    let mut i: usize = 0;
    while i < siblings.len()
        invariant
            i <= siblings.len(),
            nearest == fold_nearest(siblings@.take(i as int), focused, *current, direction, cycles),
            furthest == fold_furthest(
                siblings@.take(i as int),
                focused,
                *current,
                direction,
                cycles,
            ),
        decreases siblings.len() - i,
    {
        proof {
            lemma_take_step(siblings@, i as int);
        }
        let s = &siblings[i];
        if !s.is_disabled && is_node_visible(s.is_visible, s.size) && !is_focused(
            focused,
            s.entity,
        ) {
            let e = build_target(current, direction, s);
            let passes: bool = if cycles { e.is_in_axis } else { e.is_in_direction };
            if passes {
                nearest =
                match nearest {
                    Some(acc) => {
                        if e.is_in_direction && ((acc.is_prefer == e.is_prefer && (e.overlap > 0
                            && acc.overlap <= 0 || e.distance.total < acc.distance.total)) || (
                        !acc.is_prefer && e.is_prefer)) {
                            Some(e)
                        } else {
                            Some(acc)
                        }
                    },
                    None => if e.is_in_direction { Some(e) } else { None },
                };
                furthest =
                if !cycles {
                    None
                } else {
                    match furthest {
                        Some(acc) => {
                            if !e.is_in_direction && ((acc.is_prefer == e.is_prefer && (e.overlap
                                > 0 && acc.overlap <= 0 || e.distance.total > acc.distance.total
                                || (distance_equal(e.distance.total, acc.distance.total)
                                && f32_equal(e.overlap, acc.overlap) && e.position.x
                                < acc.position.x))) || (!acc.is_prefer && e.is_prefer)) {
                                Some(e)
                            } else {
                                Some(acc)
                            }
                        },
                        None => if !e.is_in_direction { Some(e) } else { None },
                    }
                };
            }
        }
        i += 1;
    }
    proof {
        lemma_take_all(siblings@);
    }
    (nearest, furthest)
}

/// Picks the element that a move in `direction` lands on, among the
/// siblings of the active menu. `focused` is the element that holds the
/// focus, if any; `cycles` says whether the menu wraps around.
pub fn resolve_2d(
    focused: Option<Entity>,
    direction: UiNavDirection,
    cycles: bool,
    siblings: &Vec<Sibling>,
) -> (r: Option<Entity>)
    ensures
        r == resolve_2d_spec(focused, direction, cycles, siblings@),
{
    let mut current: Option<FocusNode> = None;
    let mut priority: Option<Entity> = None;
    let mut i: usize = 0;
    while i < siblings.len()
        invariant
            i <= siblings.len(),
            current == current_node(siblings@.take(i as int), focused),
            priority == first_priority(siblings@.take(i as int)),
        decreases siblings.len() - i,
    {
        proof {
            lemma_take_step(siblings@, i as int);
        }
        let s = &siblings[i];
        if !s.is_disabled && is_node_visible(s.is_visible, s.size) {
            if current.is_none() && is_focused(focused, s.entity) {
                current =
                Some(
                    FocusNode {
                        menu: None,
                        size: s.size,
                        position: s.position,
                        is_priority: s.is_priority,
                    },
                );
            }
            if priority.is_none() && s.is_priority {
                priority = Some(s.entity);
            }
        }
        i += 1;
    }
    proof {
        lemma_take_all(siblings@);
    }
    let mut direction = direction;
    let current: FocusNode = match current {
        Some(node) => node,
        None => {
            if priority.is_some() {
                return priority;
            }
            direction = UiNavDirection::DownRight;
            FocusNode {
                menu: None,
                size: Vec2::splat(ORIGIN_SIZE),
                position: Vec2::splat(ORIGIN_POSITION),
                is_priority: false,
            }
        },
    };
    let (nearest, furthest) = fold_targets(siblings, focused, &current, direction, cycles);
    match nearest {
        Some(target) => Some(target.entity),
        None => if cycles {
            match furthest {
                Some(target) => Some(target.entity),
                None => None,
            }
        } else {
            None
        },
    }
}

} // verus!
