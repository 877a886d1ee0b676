use vstd::prelude::*;
use crate::types::{Entity, UiNavDirection};
use crate::utils::{
    distance_sq_between_aabbs, distance_sq_spec, overlap_between_aabbs,
    overlap_between_aabbs_spec, Aabb2d, Overlap, Vec2, MAX_DISTANCE_SQ,
};

verus! {

/// The place and extent of one focusable, and the menu it belongs to.
#[derive(Debug, Clone, Copy, PartialEq, Eq, Structural)]
pub struct FocusNode {
    pub menu: Option<Entity>,
    pub size: Vec2,
    pub position: Vec2,
    pub is_priority: bool,
}

/// How one node lies relative to another: on which sides it reaches beyond
/// it, how far the two overlap along each axis, and how far apart they are.
#[derive(Debug, Clone, Copy, PartialEq, Eq, Structural)]
pub struct FocusNodeDistance {
    pub is_left: bool,
    pub is_right: bool,
    pub is_up: bool,
    pub is_down: bool,
    /// The projections on the x axis share more than a point.
    pub is_overlap_x: bool,
    /// The projections on the y axis share more than a point.
    pub is_overlap_y: bool,
    /// The squared distance between the two nodes.
    pub total: u128,
    pub overlap_x: i64,
    pub overlap_y: i64,
}

/// A candidate for a move, seen from the node that holds the focus.
#[derive(Debug, Clone, Copy, PartialEq, Eq, Structural)]
pub struct FocusTarget {
    pub entity: Entity,
    pub position: Vec2,
    pub distance: FocusNodeDistance,
    pub is_prefer: bool,
    pub is_in_direction: bool,
    pub is_in_axis: bool,
    pub overlap: i64,
}

/// Half of `v`, rounded toward zero.
pub open spec fn half_spec(v: int) -> int {
    if v >= 0 { v / 2 } else { -((-v) / 2) }
}

fn half(v: i32) -> (r: i32)
    ensures
        r == half_spec(v as int),
{
    if v >= 0 {
        v / 2
    } else {
        let m: i64 = -(v as i64);
        let h: i64 = m / 2;
        (-h) as i32
    }
}

impl FocusNode {
    /// The rectangle of the node: centered on its position, reaching half of
    /// its size to each side.
    pub open spec fn aabb(self) -> Aabb2d {
        Aabb2d {
            center: self.position,
            half_size: Vec2 {
                x: half_spec(self.size.x as int) as i32,
                y: half_spec(self.size.y as int) as i32,
            },
        }
    }

    /// How `other` lies relative to `self`.
    pub open spec fn distance_to_spec(self, other: FocusNode) -> FocusNodeDistance {
        let a = self.aabb();
        let b = other.aabb();
        let overlap = overlap_between_aabbs_spec(a, b);
        FocusNodeDistance {
            is_left: b.min_x() < a.min_x(),
            is_right: b.max_x() > a.max_x(),
            is_up: b.min_y() < a.min_y(),
            is_down: b.max_y() > a.max_y(),
            is_overlap_x: overlap.x > 0,
            is_overlap_y: overlap.y > 0,
            total: distance_sq_spec(a, b) as u128,
            overlap_x: overlap.x,
            overlap_y: overlap.y,
        }
    }

    /// The rectangle that the node covers.
    pub fn get_aabb(&self) -> (r: Aabb2d)
        ensures
            r == self.aabb(),
    {
        Aabb2d::new(self.position, Vec2::new(half(self.size.x), half(self.size.y)))
    }

    /// Measures how `other` lies relative to `self`.
    pub fn distance_to(&self, other: &Self) -> (r: FocusNodeDistance)
        ensures
            r == self.distance_to_spec(*other),
            r.total == distance_sq_spec(self.aabb(), other.aabb()),
            r.total <= MAX_DISTANCE_SQ,
    {
        let aabb_self = self.get_aabb();
        let aabb_other = other.get_aabb();
        let overlap: Overlap = overlap_between_aabbs(&aabb_self, &aabb_other);
        let distance: u128 = distance_sq_between_aabbs(&aabb_self, &aabb_other);
        FocusNodeDistance {
            is_left: aabb_other.left() < aabb_self.left(),
            is_right: aabb_other.right() > aabb_self.right(),
            is_up: aabb_other.top() < aabb_self.top(),
            is_down: aabb_other.bottom() > aabb_self.bottom(),
            is_overlap_x: overlap.x > 0,
            is_overlap_y: overlap.y > 0,
            total: distance,
            overlap_x: overlap.x,
            overlap_y: overlap.y,
        }
    }
}

impl FocusNodeDistance {
    /// Whether the other node reaches beyond this one on every side that
    /// `direction` names.
    pub open spec fn in_direction(self, direction: UiNavDirection) -> bool {
        match direction {
            UiNavDirection::Up => self.is_up,
            UiNavDirection::Down => self.is_down,
            UiNavDirection::Left => self.is_left,
            UiNavDirection::Right => self.is_right,
            UiNavDirection::UpLeft => self.is_up && self.is_left,
            UiNavDirection::UpRight => self.is_up && self.is_right,
            UiNavDirection::DownLeft => self.is_down && self.is_left,
            UiNavDirection::DownRight => self.is_down && self.is_right,
        }
    }

    /// Whether the other node lies on the line of `direction`, on either
    /// side.
    pub open spec fn along_axis(self, direction: UiNavDirection) -> bool {
        match direction {
            UiNavDirection::Up | UiNavDirection::Down => self.is_up || self.is_down,
            UiNavDirection::Left | UiNavDirection::Right => self.is_left || self.is_right,
            UiNavDirection::UpLeft | UiNavDirection::DownRight => {
                self.is_up && self.is_left || self.is_down && self.is_right
            },
            UiNavDirection::UpRight | UiNavDirection::DownLeft => {
                self.is_up && self.is_right || self.is_down && self.is_left
            },
        }
    }

    /// Whether the other node lies in `direction`.
    pub fn is_in_direction(&self, direction: UiNavDirection) -> (r: bool)
        ensures
            r == self.in_direction(direction),
    {
        match direction {
            UiNavDirection::Up => self.is_up,
            UiNavDirection::Down => self.is_down,
            UiNavDirection::Left => self.is_left,
            UiNavDirection::Right => self.is_right,
            UiNavDirection::UpLeft => self.is_up && self.is_left,
            UiNavDirection::UpRight => self.is_up && self.is_right,
            UiNavDirection::DownLeft => self.is_down && self.is_left,
            UiNavDirection::DownRight => self.is_down && self.is_right,
        }
    }

    /// Whether the other node lies in `direction` or opposite to it.
    pub fn is_along_axis(&self, direction: UiNavDirection) -> (r: bool)
        ensures
            r == self.along_axis(direction),
    {
        match direction {
            UiNavDirection::Up | UiNavDirection::Down => self.is_up || self.is_down,
            UiNavDirection::Left | UiNavDirection::Right => self.is_left || self.is_right,
            UiNavDirection::UpLeft | UiNavDirection::DownRight => {
                self.is_up && self.is_left || self.is_down && self.is_right
            },
            UiNavDirection::UpRight | UiNavDirection::DownLeft => {
                self.is_up && self.is_right || self.is_down && self.is_left
            },
        }
    }
}

/// The distance from one node to another is the distance back.
pub proof fn lemma_distance_to_symmetric(a: FocusNode, b: FocusNode)
    ensures
        a.distance_to_spec(b).total == b.distance_to_spec(a).total,
        a.distance_to_spec(b).overlap_x == b.distance_to_spec(a).overlap_x,
        a.distance_to_spec(b).overlap_y == b.distance_to_spec(a).overlap_y,
{
}

/// A node lies in a direction only if it also lies along that direction's
/// axis.
pub proof fn lemma_in_direction_is_along_axis(d: FocusNodeDistance, direction: UiNavDirection)
    requires
        d.in_direction(direction),
    ensures
        d.along_axis(direction),
{
}

/// Of two nodes of some width that do not overlap along x, with `b` the one
/// further right, `b` is right of `a` and not left of it, and `a` is left of `b` and
/// not right of it.
pub proof fn lemma_direction_exclusive_x(a: FocusNode, b: FocusNode)
    requires
        a.aabb().min_x() < a.aabb().max_x(),
        b.aabb().min_x() < b.aabb().max_x(),
        a.aabb().max_x() <= b.aabb().min_x(),
    ensures
        a.distance_to_spec(b).is_right,
        !a.distance_to_spec(b).is_left,
        b.distance_to_spec(a).is_left,
        !b.distance_to_spec(a).is_right,
        !a.distance_to_spec(b).is_overlap_x,
{
}

/// Of two nodes of some height that do not overlap along y, with `b` the
/// lower one (the larger y), `b` is down from `a` and not up from it, and `a` is up from
/// `b` and not down from it.
pub proof fn lemma_direction_exclusive_y(a: FocusNode, b: FocusNode)
    requires
        a.aabb().min_y() < a.aabb().max_y(),
        b.aabb().min_y() < b.aabb().max_y(),
        a.aabb().max_y() <= b.aabb().min_y(),
    ensures
        a.distance_to_spec(b).is_down,
        !a.distance_to_spec(b).is_up,
        b.distance_to_spec(a).is_up,
        !b.distance_to_spec(a).is_down,
        !a.distance_to_spec(b).is_overlap_y,
{
}

/// Two nodes that cover the same span along an axis lie on neither side of
/// each other along it.
pub proof fn lemma_same_span_no_side(a: FocusNode, b: FocusNode)
    ensures
        a.aabb().min_x() == b.aabb().min_x() && a.aabb().max_x() == b.aabb().max_x() ==> !a.distance_to_spec(
            b,
        ).is_left && !a.distance_to_spec(b).is_right,
        a.aabb().min_y() == b.aabb().min_y() && a.aabb().max_y() == b.aabb().max_y() ==> !a.distance_to_spec(
            b,
        ).is_up && !a.distance_to_spec(b).is_down,
{
}

} // verus!
