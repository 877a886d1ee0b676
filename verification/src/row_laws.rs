use vstd::prelude::*;
use crate::focus_node::half_spec;
use crate::resolve::{
    current_node, fold_furthest, fold_nearest, is_candidate, make_target, node_of,
    resolve_2d_spec, takes_part, Sibling,
};
use crate::resolve_laws::lemma_pick_exists_iff;
use crate::seq_util::{lemma_take_all, lemma_take_step};
use crate::types::{Entity, UiNavDirection};
use crate::utils::{axis_gap, distance_sq_spec, overlap_spec};

verus! {

/// The width that every sibling of a row covers.
pub open spec fn row_width(s: Seq<Sibling>) -> int {
    2 * half_spec(s[0].size.x as int)
}

/// Whether the siblings form a row: all of them enabled and to be seen,
/// of one size that covers some width and height, at one height, each with
/// an identity of its own, and standing from left to right in their order
/// without overlapping.
pub open spec fn is_row(s: Seq<Sibling>) -> bool {
    &&& s.len() > 0
    &&& half_spec(s[0].size.x as int) >= 1
    &&& half_spec(s[0].size.y as int) >= 1
    &&& forall|i: int|
        0 <= i < s.len() ==> is_candidate(#[trigger] s[i]) && s[i].size == s[0].size
            && s[i].position.y == s[0].position.y
    &&& forall|i: int, j: int|
        0 <= i < j < s.len() ==> (#[trigger] s[i]).entity != (#[trigger] s[j]).entity
            && s[j].position.x - s[i].position.x >= row_width(s)
}

/// The element that holds the focus after a move to the right from `e`
/// in a menu that wraps: the target of the move, or `e` where there is none.
pub open spec fn next_right(s: Seq<Sibling>, e: Entity) -> Entity {
    match resolve_2d_spec(Some(e), UiNavDirection::Right, true, s) {
        Some(target) => target,
        None => e,
    }
}

/// The element that holds the focus after `n` moves to the right from `e`.
pub open spec fn walk_right(s: Seq<Sibling>, e: Entity, n: nat) -> Entity
    decreases n,
{
    if n == 0 {
        e
    } else {
        next_right(s, walk_right(s, e, (n - 1) as nat))
    }
}

proof fn lemma_square_strict(a: int, b: int)
    requires
        0 <= a < b,
    ensures
        a * a < b * b,
{
    assert(a * a < b * b) by (nonlinear_arith)
        requires
            0 <= a < b,
    ;
}

proof fn lemma_square_small(a: int)
    requires
        0 <= a <= 0x2_0000_0000,
    ensures
        0 <= a * a <= 0x4_0000_0000_0000_0000,
{
    assert(0 <= a * a <= 0x4_0000_0000_0000_0000) by (nonlinear_arith)
        requires
            0 <= a <= 0x2_0000_0000,
    ;
}

/// How far apart two siblings of a row are along x, edge to edge.
pub open spec fn row_gap(s: Seq<Sibling>, a: int, b: int) -> int {
    if a < b {
        s[b].position.x - s[a].position.x - row_width(s)
    } else {
        s[a].position.x - s[b].position.x - row_width(s)
    }
}

/// Seen from one sibling of a row, another lies to the right exactly if
/// it comes later, and to the left exactly if it comes earlier; it lies
/// neither up nor down, it overlaps along y, and its distance is the gap
/// between the two along x.
proof fn lemma_row_target(s: Seq<Sibling>, a: int, b: int)
    requires
        is_row(s),
        0 <= a < s.len(),
        0 <= b < s.len(),
        a != b,
    ensures
        ({
            let t = make_target(node_of(s[a]), UiNavDirection::Right, s[b]);
            &&& t.is_in_direction == (a < b)
            &&& t.is_in_axis
            &&& t.is_prefer
            &&& t.overlap == 2 * half_spec(s[0].size.y as int)
            &&& t.overlap > 0
            &&& t.distance.total == row_gap(s, a, b) * row_gap(s, a, b)
            &&& row_gap(s, a, b) >= 0
            &&& t.entity == s[b].entity
            &&& t.position == s[b].position
        }),
{
    let na = node_of(s[a]);
    let nb = node_of(s[b]);
    let ra = na.aabb();
    let rb = nb.aabb();
    assert(is_candidate(s[a]) && is_candidate(s[b]));
    assert(s[a].size == s[0].size && s[b].size == s[0].size);
    let hw = half_spec(s[0].size.x as int);
    let hh = half_spec(s[0].size.y as int);
    assert(ra.half_size.x == hw && rb.half_size.x == hw);
    assert(ra.half_size.y == hh && rb.half_size.y == hh);
    if a < b {
        assert(s[b].position.x - s[a].position.x >= row_width(s));
    } else {
        assert(s[a].position.x - s[b].position.x >= row_width(s));
    }
    let g = row_gap(s, a, b);
    assert(axis_gap(ra.min_x(), ra.max_x(), rb.min_x(), rb.max_x()) == g);
    assert(axis_gap(ra.min_y(), ra.max_y(), rb.min_y(), rb.max_y()) == 0);
    assert(overlap_spec(ra.min_y(), ra.max_y(), rb.min_y(), rb.max_y()) == 2 * hh);
    assert(g <= 0x2_0000_0000);
    lemma_square_small(g);
    assert(distance_sq_spec(ra, rb) == g * g + 0 * 0);
    assert(distance_sq_spec(ra, rb) == g * g);
}

/// In a row, the focused sibling is found at its own place.
proof fn lemma_row_current(s: Seq<Sibling>, i: int, k: int)
    requires
        is_row(s),
        0 <= i < s.len(),
        0 <= k <= s.len(),
    ensures
        current_node(s.take(k), Some(s[i].entity)) == if k <= i {
            None
        } else {
            Some(node_of(s[i]))
        },
    decreases k,
{
    if k > 0 {
        lemma_row_current(s, i, k - 1);
        lemma_take_step(s, k - 1);
        let j = k - 1;
        assert(is_candidate(s[j]));
        if j < i {
            assert(s[j].entity != s[i].entity);
        }
    }
}

/// In a row, the nearest target to the right of the sibling at `i` is the
/// sibling after it.
proof fn lemma_row_nearest(s: Seq<Sibling>, i: int, k: int)
    requires
        is_row(s),
        0 <= i < s.len(),
        0 <= k <= s.len(),
    ensures
        fold_nearest(s.take(k), Some(s[i].entity), node_of(s[i]), UiNavDirection::Right, true)
            == if k <= i + 1 {
            None
        } else {
            Some(make_target(node_of(s[i]), UiNavDirection::Right, s[i + 1]))
        },
    decreases k,
{
    if k > 0 {
        lemma_row_nearest(s, i, k - 1);
        lemma_take_step(s, k - 1);
        let j = k - 1;
        let focused = Some(s[i].entity);
        let current = node_of(s[i]);
        assert(is_candidate(s[j]));
        if j == i {
            assert(!takes_part(s[j], focused, current, UiNavDirection::Right, true));
        } else {
            lemma_row_target(s, i, j);
            if j < i {
                assert(s[j].entity != s[i].entity);
            } else {
                assert(s[i].entity != s[j].entity);
            }
            assert(takes_part(s[j], focused, current, UiNavDirection::Right, true));
            if j > i + 1 {
                lemma_row_target(s, i, i + 1);
                assert(s[j].position.x - s[i + 1].position.x >= row_width(s));
                lemma_square_strict(row_gap(s, i, i + 1), row_gap(s, i, j));
            }
        }
    }
}

/// In a row, the furthest target on the far side of the last sibling is
/// the first sibling.
proof fn lemma_row_furthest(s: Seq<Sibling>, k: int)
    requires
        is_row(s),
        s.len() >= 2,
        1 <= k <= s.len(),
    ensures
        fold_furthest(
            s.take(k),
            Some(s[s.len() - 1].entity),
            node_of(s[s.len() - 1]),
            UiNavDirection::Right,
            true,
        ) == Some(make_target(node_of(s[s.len() - 1]), UiNavDirection::Right, s[0])),
    decreases k,
{
    let i = s.len() - 1;
    let focused = Some(s[i].entity);
    let current = node_of(s[i]);
    lemma_take_step(s, k - 1);
    let j = k - 1;
    assert(is_candidate(s[j]));
    lemma_row_target(s, i, 0);
    assert(s[0].entity != s[i].entity);
    if k == 1 {
        assert(s.take(0).len() == 0);
        assert(takes_part(s[0], focused, current, UiNavDirection::Right, true));
    } else {
        lemma_row_furthest(s, k - 1);
        if j == i {
            assert(!takes_part(s[j], focused, current, UiNavDirection::Right, true));
        } else {
            lemma_row_target(s, i, j);
            assert(s[j].entity != s[i].entity);
            assert(s[j].position.x - s[0].position.x >= row_width(s));
            lemma_square_strict(row_gap(s, i, j), row_gap(s, i, 0));
        }
    }
}

/// In a row of a menu that wraps, a move to the right from any sibling
/// but the last lands on the sibling after it, and a move to the right from
/// the last lands on the first.
pub proof fn lemma_row_step(s: Seq<Sibling>, i: int)
    requires
        is_row(s),
        s.len() >= 2,
        0 <= i < s.len(),
    ensures
        resolve_2d_spec(Some(s[i].entity), UiNavDirection::Right, true, s) == Some(
            s[(i + 1) % (s.len() as int)].entity,
        ),
{
    let n = s.len() as int;
    lemma_take_all(s);
    lemma_row_current(s, i, n);
    lemma_row_nearest(s, i, n);
    if i + 1 < n {
        assert((i + 1) % n == i + 1) by (nonlinear_arith)
            requires
                0 <= i + 1 < n,
        ;
    } else {
        assert((i + 1) % n == 0) by (nonlinear_arith)
            requires
                i + 1 == n,
                n > 0,
        ;
        lemma_row_furthest(s, n);
    }
}

/// In a row of one sibling, a move to the right finds no target.
pub proof fn lemma_row_of_one(s: Seq<Sibling>)
    requires
        is_row(s),
        s.len() == 1,
    ensures
        resolve_2d_spec(Some(s[0].entity), UiNavDirection::Right, true, s) is None,
{
    lemma_take_all(s);
    lemma_row_current(s, 0, 1);
    lemma_pick_exists_iff(s, Some(s[0].entity), node_of(s[0]), UiNavDirection::Right, true);
}

/// In a row of a menu that wraps, `k` moves to the right from the first
/// sibling lead to the sibling at `k` modulo the length of the row.
pub proof fn lemma_row_walk(s: Seq<Sibling>, k: nat)
    requires
        is_row(s),
    ensures
        walk_right(s, s[0].entity, k) == s[(k as int) % (s.len() as int)].entity,
    decreases k,
{
    let n = s.len() as int;
    if k == 0 {
        assert(0int % n == 0);
    } else {
        lemma_row_walk(s, (k - 1) as nat);
        let i = (k - 1) % n;
        if n == 1 {
            assert((k as int) % 1 == 0);
            assert(i == 0);
            lemma_row_of_one(s);
        } else {
            lemma_row_step(s, i);
            assert((i + 1) % n == (k as int) % n) by (nonlinear_arith)
                requires
                    i == (k - 1) % n,
                    n >= 2,
                    k >= 1,
            ;
        }
    }
}

/// In a menu that wraps, as many moves to the right as a row has siblings
/// lead from its first sibling back to it.
pub proof fn lemma_wrap_returns(s: Seq<Sibling>)
    requires
        is_row(s),
    ensures
        walk_right(s, s[0].entity, s.len()) == s[0].entity,
{
    lemma_row_walk(s, s.len());
    let n = s.len() as int;
    assert(n % n == 0) by (nonlinear_arith)
        requires
            n > 0,
    ;
}

} // verus!
