use vstd::prelude::*;

verus! {

/// Lattice units in one logical pixel. Every coordinate, size and distance of
/// this crate is a whole number of lattice units.
pub const UNITS_PER_PIXEL: i32 = 10_000;

/// Two lengths are taken as equal when they differ by less than this many
/// lattice units.
pub const EPSILON: i64 = 1;

/// No squared distance between two rectangles is larger than this.
pub const MAX_DISTANCE_SQ: u128 = 0x8_0000_0000_0000_0000;

/// A point or an extent on the lattice.
#[derive(Debug, Clone, Copy, PartialEq, Eq, Hash, Structural)]
pub struct Vec2 {
    pub x: i32,
    pub y: i32,
}

impl Vec2 {
    /// The vector with the given components.
    pub fn new(x: i32, y: i32) -> (r: Self)
        ensures
            r == (Vec2 { x, y }),
    {
        Vec2 { x, y }
    }

    /// The vector whose two components are `v`.
    pub fn splat(v: i32) -> (r: Self)
        ensures
            r == (Vec2 { x: v, y: v }),
    {
        Vec2 { x: v, y: v }
    }
}

/// An axis-aligned rectangle, held as its center and its half extents.
#[derive(Debug, Clone, Copy, PartialEq, Eq, Hash, Structural)]
pub struct Aabb2d {
    pub center: Vec2,
    pub half_size: Vec2,
}

impl Aabb2d {
    /// The rectangle around `center` that reaches `half_size` to each side.
    pub fn new(center: Vec2, half_size: Vec2) -> (r: Self)
        ensures
            r == (Aabb2d { center, half_size }),
    {
        Aabb2d { center, half_size }
    }

    pub open spec fn min_x(self) -> int {
        self.center.x - self.half_size.x
    }

    pub open spec fn max_x(self) -> int {
        self.center.x + self.half_size.x
    }

    pub open spec fn min_y(self) -> int {
        self.center.y - self.half_size.y
    }

    pub open spec fn max_y(self) -> int {
        self.center.y + self.half_size.y
    }

    /// The corner picked by `right` and `down`: the larger x when `right`,
    /// the larger y when `down`.
    pub open spec fn corner(self, right: bool, down: bool) -> (int, int) {
        (
            if right { self.max_x() } else { self.min_x() },
            if down { self.max_y() } else { self.min_y() },
        )
    }

    /// The smallest x of the rectangle.
    pub fn left(&self) -> (r: i64)
        ensures
            r == self.min_x(),
    {
        self.center.x as i64 - self.half_size.x as i64
    }

    /// The largest x of the rectangle.
    pub fn right(&self) -> (r: i64)
        ensures
            r == self.max_x(),
    {
        self.center.x as i64 + self.half_size.x as i64
    }

    /// The smallest y of the rectangle.
    pub fn top(&self) -> (r: i64)
        ensures
            r == self.min_y(),
    {
        self.center.y as i64 - self.half_size.y as i64
    }

    /// The largest y of the rectangle.
    pub fn bottom(&self) -> (r: i64)
        ensures
            r == self.max_y(),
    {
        self.center.y as i64 + self.half_size.y as i64
    }
}

/// The signed overlap of two rectangles along each axis.
#[derive(Debug, Clone, Copy, PartialEq, Eq, Hash, Structural)]
pub struct Overlap {
    pub x: i64,
    pub y: i64,
}

pub open spec fn spec_abs(v: int) -> int {
    if v < 0 { -v } else { v }
}

pub open spec fn spec_min(a: int, b: int) -> int {
    if a <= b { a } else { b }
}

pub open spec fn spec_max(a: int, b: int) -> int {
    if a >= b { a } else { b }
}

/// The value at the fraction `num / den` of the way from `a` to `b`, rounded
/// down: `a * (1 - d) + b * d` for `d = num / den`.
pub open spec fn lerp_spec(a: int, b: int, num: int, den: int) -> int {
    (a * (den - num) + b * num) / den
}

/// Linear interpolation between `a` and `b` at the fraction `num / den`,
/// rounded down to a whole number.
pub fn f32_lerp(a: i64, b: i64, num: u32, den: u32) -> (r: i64)
    requires
        0 < den,
        num <= den,
    ensures
        r == lerp_spec(a as int, b as int, num as int, den as int),
        spec_min(a as int, b as int) <= r <= spec_max(a as int, b as int),
{
    let rest: u32 = den - num;
    assert(-0x8000_0000_0000_0000 * 0x1_0000_0000 <= (a as int) * (rest as int)
        <= 0x8000_0000_0000_0000 * 0x1_0000_0000) by (nonlinear_arith)
        requires
            -0x8000_0000_0000_0000 <= (a as int) <= 0x8000_0000_0000_0000,
            0 <= (rest as int) <= 0x1_0000_0000,
    ;
    assert(-0x8000_0000_0000_0000 * 0x1_0000_0000 <= (b as int) * (num as int)
        <= 0x8000_0000_0000_0000 * 0x1_0000_0000) by (nonlinear_arith)
        requires
            -0x8000_0000_0000_0000 <= (b as int) <= 0x8000_0000_0000_0000,
            0 <= (num as int) <= 0x1_0000_0000,
    ;
    let left: i128 = (a as i128) * (rest as i128);
    let right: i128 = (b as i128) * (num as i128);
    let sum: i128 = left + right;
    let d: i128 = den as i128;
    proof {
        lemma_lerp_between(a as int, b as int, num as int, den as int);
    }
    let q: i128 = floor_div(sum, d);
    q as i64
}

/// Division rounded toward negative infinity.
fn floor_div(n: i128, d: i128) -> (q: i128)
    requires
        0 < d,
        -0x1_0000_0000_0000_0000_0000_0000_0000 <= n <= 0x1_0000_0000_0000_0000_0000_0000_0000,
    ensures
        q == n / d,
{
    if n >= 0 {
        n / d
    } else {
        let m: i128 = -n;
        let t: i128 = m / d;
        let rem: i128 = m % d;
        assert(m == d * t + rem && 0 <= rem < d) by (nonlinear_arith)
            requires
                t == m / d,
                rem == m % d,
                0 < d,
                0 <= m,
        ;
        assert(0 <= t <= m) by (nonlinear_arith)
            requires
                m == d * t + rem,
                0 <= rem < d,
                0 < d,
                0 <= m,
        ;
        if rem == 0 {
            assert(n / d == -t) by (nonlinear_arith)
                requires
                    -n == d * t,
                    0 < d,
            ;
            -t
        } else {
            assert(n / d == -t - 1) by (nonlinear_arith)
                requires
                    -n == d * t + rem,
                    0 < rem < d,
            ;
            -t - 1
        }
    }
}

/// An interpolated value lies between its two ends.
pub proof fn lemma_lerp_between(a: int, b: int, num: int, den: int)
    requires
        0 < den,
        0 <= num <= den,
    ensures
        spec_min(a, b) <= lerp_spec(a, b, num, den) <= spec_max(a, b),
{
    let lo = spec_min(a, b);
    let hi = spec_max(a, b);
    let s = a * (den - num) + b * num;
    assert(lo * den <= s <= hi * den) by (nonlinear_arith)
        requires
            lo <= a <= hi,
            lo <= b <= hi,
            0 <= num <= den,
            s == a * (den - num) + b * num,
    ;
    assert(lo <= s / den <= hi) by (nonlinear_arith)
        requires
            lo * den <= s <= hi * den,
            0 < den,
    ;
}

/// Whether two lengths are equal up to [`EPSILON`].
pub open spec fn equal_spec(a: int, b: int) -> bool {
    spec_abs(b - a) < EPSILON
}

/// Whether `a` and `b` differ by less than [`EPSILON`].
pub fn f32_equal(a: i64, b: i64) -> (r: bool)
    ensures
        r == equal_spec(a as int, b as int),
{
    let d: i128 = b as i128 - a as i128;
    let m: i128 = if d < 0 { -d } else { d };
    m < EPSILON as i128
}

/// The signed overlap of the intervals `[min_a, max_a]` and `[min_b, max_b]`:
/// the sum of their lengths less the length of their hull. It is positive
/// exactly when the intervals share more than a point.
pub open spec fn overlap_spec(min_a: int, max_a: int, min_b: int, max_b: int) -> int {
    ((max_a - min_a) + (max_b - min_b)) - (spec_max(max_a, max_b) - spec_min(min_a, min_b))
}

fn compute_overlap(min_a: i64, max_a: i64, min_b: i64, max_b: i64) -> (r: i64)
    requires
        -0x1_0000_0000 <= min_a <= 0x1_0000_0000,
        -0x1_0000_0000 <= max_a <= 0x1_0000_0000,
        -0x1_0000_0000 <= min_b <= 0x1_0000_0000,
        -0x1_0000_0000 <= max_b <= 0x1_0000_0000,
    ensures
        r == overlap_spec(min_a as int, max_a as int, min_b as int, max_b as int),
{
    let min: i64 = if min_a <= min_b { min_a } else { min_b };
    let max: i64 = if max_a >= max_b { max_a } else { max_b };
    let size_a: i64 = max_a - min_a;
    let size_b: i64 = max_b - min_b;
    (size_a + size_b) - (max - min)
}

/// The overlap of two rectangles along each axis.
pub open spec fn overlap_between_aabbs_spec(a: Aabb2d, b: Aabb2d) -> Overlap {
    Overlap {
        x: overlap_spec(a.min_x(), a.max_x(), b.min_x(), b.max_x()) as i64,
        y: overlap_spec(a.min_y(), a.max_y(), b.min_y(), b.max_y()) as i64,
    }
}

/// Computes the signed overlap of two rectangles along each axis.
pub fn overlap_between_aabbs(aabb1: &Aabb2d, aabb2: &Aabb2d) -> (r: Overlap)
    ensures
        r == overlap_between_aabbs_spec(*aabb1, *aabb2),
        r.x == overlap_spec(aabb1.min_x(), aabb1.max_x(), aabb2.min_x(), aabb2.max_x()),
        r.y == overlap_spec(aabb1.min_y(), aabb1.max_y(), aabb2.min_y(), aabb2.max_y()),
{
    let overlap_x: i64 = compute_overlap(aabb1.left(), aabb1.right(), aabb2.left(), aabb2.right());
    let overlap_y: i64 = compute_overlap(aabb1.top(), aabb1.bottom(), aabb2.top(), aabb2.bottom());
    Overlap { x: overlap_x, y: overlap_y }
}

/// The least distance along one axis between an end of `[min_a, max_a]` and
/// an end of `[min_b, max_b]`.
pub open spec fn axis_gap(min_a: int, max_a: int, min_b: int, max_b: int) -> int {
    spec_min(
        spec_min(spec_abs(min_a - min_b), spec_abs(min_a - max_b)),
        spec_min(spec_abs(max_a - min_b), spec_abs(max_a - max_b)),
    )
}

/// The squared Euclidean distance between two points.
pub open spec fn point_distance_sq(p: (int, int), q: (int, int)) -> int {
    (p.0 - q.0) * (p.0 - q.0) + (p.1 - q.1) * (p.1 - q.1)
}

/// The squared distance between two rectangles: the least squared Euclidean
/// distance between a corner of one and a corner of the other.
pub open spec fn distance_sq_spec(a: Aabb2d, b: Aabb2d) -> int {
    let gx = axis_gap(a.min_x(), a.max_x(), b.min_x(), b.max_x());
    let gy = axis_gap(a.min_y(), a.max_y(), b.min_y(), b.max_y());
    gx * gx + gy * gy
}

fn abs_diff(a: i64, b: i64) -> (r: u128)
    requires
        -0x1_0000_0000 <= a <= 0x1_0000_0000,
        -0x1_0000_0000 <= b <= 0x1_0000_0000,
    ensures
        r == spec_abs(a - b),
        r <= 0x2_0000_0000,
{
    if a >= b {
        (a - b) as u128
    } else {
        (b - a) as u128
    }
}

fn compute_gap(min_a: i64, max_a: i64, min_b: i64, max_b: i64) -> (r: u128)
    requires
        -0x1_0000_0000 <= min_a <= 0x1_0000_0000,
        -0x1_0000_0000 <= max_a <= 0x1_0000_0000,
        -0x1_0000_0000 <= min_b <= 0x1_0000_0000,
        -0x1_0000_0000 <= max_b <= 0x1_0000_0000,
    ensures
        r == axis_gap(min_a as int, max_a as int, min_b as int, max_b as int),
        r <= 0x2_0000_0000,
{
    let d1: u128 = abs_diff(min_a, min_b);
    let d2: u128 = abs_diff(min_a, max_b);
    let d3: u128 = abs_diff(max_a, min_b);
    let d4: u128 = abs_diff(max_a, max_b);
    let m1: u128 = if d1 <= d2 { d1 } else { d2 };
    let m2: u128 = if d3 <= d4 { d3 } else { d4 };
    if m1 <= m2 { m1 } else { m2 }
}

/// Computes the squared distance between two rectangles.
pub fn distance_sq_between_aabbs(aabb1: &Aabb2d, aabb2: &Aabb2d) -> (r: u128)
    ensures
        r == distance_sq_spec(*aabb1, *aabb2),
        r <= MAX_DISTANCE_SQ,
{
    let gx: u128 = compute_gap(aabb1.left(), aabb1.right(), aabb2.left(), aabb2.right());
    let gy: u128 = compute_gap(aabb1.top(), aabb1.bottom(), aabb2.top(), aabb2.bottom());
    assert(gx * gx <= 0x4_0000_0000_0000_0000) by (nonlinear_arith)
        requires
            gx <= 0x2_0000_0000,
    ;
    assert(gy * gy <= 0x4_0000_0000_0000_0000) by (nonlinear_arith)
        requires
            gy <= 0x2_0000_0000,
    ;
    gx * gx + gy * gy
}

/// Whether `r` is the whole part of the square root of `n`.
pub open spec fn is_floor_sqrt(r: int, n: int) -> bool {
    0 <= r && r * r <= n < (r + 1) * (r + 1)
}

/// The whole part of the square root of `n`.
pub fn floor_sqrt(n: u128) -> (r: u64)
    ensures
        is_floor_sqrt(r as int, n as int),
{
    let mut lo: u128 = 0;
    let mut hi: u128 = 0x1_0000_0000_0000_0000;
    assert(0x1_0000_0000_0000_0000 * 0x1_0000_0000_0000_0000 > u128::MAX) by (nonlinear_arith);
    while hi - lo > 1
        invariant
            lo < hi <= 0x1_0000_0000_0000_0000,
            lo * lo <= n < hi * hi,
        decreases hi - lo,
    {
        let mid: u128 = lo + (hi - lo) / 2;
        assert(mid * mid <= 0xFFFF_FFFF_FFFF_FFFF * 0xFFFF_FFFF_FFFF_FFFF) by (nonlinear_arith)
            requires
                mid <= 0xFFFF_FFFF_FFFF_FFFF,
        ;
        assert(0xFFFF_FFFF_FFFF_FFFF * 0xFFFF_FFFF_FFFF_FFFF <= u128::MAX) by (nonlinear_arith);
        if mid * mid <= n {
            lo = mid;
        } else {
            hi = mid;
        }
    }
    assert(hi == lo + 1);
    lo as u64
}

/// Computes the distance between two rectangles, rounded down to a whole
/// number of lattice units.
pub fn distance_between_aabbs(aabb1: &Aabb2d, aabb2: &Aabb2d) -> (r: u64)
    ensures
        is_floor_sqrt(r as int, distance_sq_spec(*aabb1, *aabb2)),
{
    floor_sqrt(distance_sq_between_aabbs(aabb1, aabb2))
}

/// Whether the square roots of `a` and `b` differ by less than [`EPSILON`].
/// With `hi` the larger and `lo` the smaller of the two, the roots differ
/// by less than one exactly when `hi < lo + 2 * sqrt(lo) + 1`, that is when
/// `hi == lo` or `(hi - lo - 1)^2 < 4 * lo`.
pub open spec fn roots_equal_spec(a: int, b: int) -> bool {
    let hi = spec_max(a, b);
    let lo = spec_min(a, b);
    hi == lo || (hi - lo - 1) * (hi - lo - 1) < 4 * lo
}

proof fn lemma_roots_compare(m: int, r: int, lo: int)
    requires
        0 <= m,
        0 <= r,
        r * r <= lo < (r + 1) * (r + 1),
    ensures
        m * m < 4 * lo <==> (m < 2 * r || (m == 2 * r && lo > r * r) || (m == 2 * r + 1 && lo - r * r
            > r)),
{
    if m < 2 * r {
        assert(m * m < 4 * lo) by (nonlinear_arith)
            requires
                0 <= m <= 2 * r - 1,
                r * r <= lo,
        ;
    } else if m == 2 * r {
        assert(m * m == 4 * (r * r)) by (nonlinear_arith)
            requires
                m == 2 * r,
        ;
    } else if m == 2 * r + 1 {
        assert(m * m == 4 * (r * r) + 4 * r + 1) by (nonlinear_arith)
            requires
                m == 2 * r + 1,
        ;
    } else {
        assert(m * m >= 4 * lo) by (nonlinear_arith)
            requires
                m >= 2 * r + 2,
                0 <= r,
                lo < (r + 1) * (r + 1),
        ;
    }
}

/// Whether two squared distances stand for distances that are equal up to
/// [`EPSILON`].
pub fn distance_equal(a: u128, b: u128) -> (r: bool)
    ensures
        r == roots_equal_spec(a as int, b as int),
{
    let hi: u128 = if a >= b { a } else { b };
    let lo: u128 = if a >= b { b } else { a };
    if hi == lo {
        return true;
    }
    let m: u128 = hi - lo - 1;
    let root: u128 = floor_sqrt(lo) as u128;
    proof {
        lemma_roots_compare(m as int, root as int, lo as int);
    }
    let twice: u128 = 2 * root;
    if m < twice {
        true
    } else if m == twice {
        lo > root * root
    } else if m == twice + 1 {
        lo - root * root > root
    } else {
        false
    }
}

/// What the comparison of roots means for their whole parts: roots that
/// are equal up to [`EPSILON`] have whole parts that differ by one at most,
/// and roots that are not have whole parts that differ.
pub proof fn lemma_roots_equal_whole_parts(a: int, b: int, ra: int, rb: int)
    requires
        0 <= a <= b,
        is_floor_sqrt(ra, a),
        is_floor_sqrt(rb, b),
    ensures
        ra <= rb,
        roots_equal_spec(a, b) ==> rb <= ra + 1,
        !roots_equal_spec(a, b) ==> ra < rb,
{
    assert(ra <= rb) by (nonlinear_arith)
        requires
            0 <= ra,
            0 <= rb,
            ra * ra <= a,
            a <= b,
            b < (rb + 1) * (rb + 1),
    ;
    let m = b - a - 1;
    if a == b {
        assert(rb <= ra) by (nonlinear_arith)
            requires
                0 <= ra,
                0 <= rb,
                rb * rb <= b,
                a == b,
                a < (ra + 1) * (ra + 1),
        ;
    } else {
        if roots_equal_spec(a, b) {
            assert(rb <= ra + 1) by (nonlinear_arith)
                requires
                    0 <= ra,
                    0 <= rb,
                    0 <= m,
                    m == b - a - 1,
                    m * m < 4 * a,
                    a < (ra + 1) * (ra + 1),
                    rb * rb <= b,
            ;
        } else {
            assert(ra < rb) by (nonlinear_arith)
                requires
                    0 <= ra <= rb,
                    0 <= m,
                    m == b - a - 1,
                    m * m >= 4 * a,
                    ra * ra <= a,
                    b < (rb + 1) * (rb + 1),
            ;
        }
    }
}

/// Two intervals that are not empty overlap by a positive amount exactly
/// when they share more than a point, and the overlap is then the length of
/// what they share.
pub proof fn lemma_overlap_is_shared_length(min_a: int, max_a: int, min_b: int, max_b: int)
    requires
        min_a <= max_a,
        min_b <= max_b,
    ensures
        overlap_spec(min_a, max_a, min_b, max_b) == spec_min(max_a, max_b) - spec_max(min_a, min_b),
        overlap_spec(min_a, max_a, min_b, max_b) > 0 <==> spec_max(min_a, min_b) < spec_min(
            max_a,
            max_b,
        ),
{
}

/// The distance between two rectangles does not depend on which comes first.
pub proof fn lemma_distance_symmetric(a: Aabb2d, b: Aabb2d)
    ensures
        distance_sq_spec(a, b) == distance_sq_spec(b, a),
{
}

/// The overlap of two rectangles does not depend on which comes first.
pub proof fn lemma_overlap_symmetric(a: Aabb2d, b: Aabb2d)
    ensures
        overlap_between_aabbs_spec(a, b) == overlap_between_aabbs_spec(b, a),
{
}

proof fn lemma_square_monotone(u: int, v: int)
    requires
        spec_abs(u) <= spec_abs(v),
    ensures
        u * u <= v * v,
{
    assert(u * u <= v * v) by (nonlinear_arith)
        requires
            (if u < 0 { -u } else { u }) <= (if v < 0 { -v } else { v }),
    ;
}

proof fn lemma_square_of_abs(u: int)
    ensures
        spec_abs(u) * spec_abs(u) == u * u,
{
    assert(spec_abs(u) * spec_abs(u) == u * u) by (nonlinear_arith)
        requires
            spec_abs(u) == u || spec_abs(u) == -u,
    ;
}

/// The distance between two rectangles is the least of the sixteen
/// distances from a corner of one to a corner of the other.
pub proof fn lemma_distance_is_least_corner_distance(a: Aabb2d, b: Aabb2d)
    ensures
        forall|ra: bool, da: bool, rb: bool, db: bool|
            distance_sq_spec(a, b) <= #[trigger] point_distance_sq(
                a.corner(ra, da),
                b.corner(rb, db),
            ),
        exists|ra: bool, da: bool, rb: bool, db: bool|
            distance_sq_spec(a, b) == #[trigger] point_distance_sq(
                a.corner(ra, da),
                b.corner(rb, db),
            ),
{
    let gx = axis_gap(a.min_x(), a.max_x(), b.min_x(), b.max_x());
    let gy = axis_gap(a.min_y(), a.max_y(), b.min_y(), b.max_y());
    assert forall|ra: bool, da: bool, rb: bool, db: bool|
        distance_sq_spec(a, b) <= #[trigger] point_distance_sq(
            a.corner(ra, da),
            b.corner(rb, db),
        ) by {
        let p = a.corner(ra, da);
        let q = b.corner(rb, db);
        lemma_square_monotone(gx, p.0 - q.0);
        lemma_square_monotone(gy, p.1 - q.1);
    }
    let ra = spec_abs(a.max_x() - b.min_x()) == gx || spec_abs(a.max_x() - b.max_x()) == gx;
    let rb = if ra {
        spec_abs(a.max_x() - b.max_x()) == gx
    } else {
        spec_abs(a.min_x() - b.max_x()) == gx
    };
    let da = spec_abs(a.max_y() - b.min_y()) == gy || spec_abs(a.max_y() - b.max_y()) == gy;
    let db = if da {
        spec_abs(a.max_y() - b.max_y()) == gy
    } else {
        spec_abs(a.min_y() - b.max_y()) == gy
    };
    let p = a.corner(ra, da);
    let q = b.corner(rb, db);
    assert(spec_abs(p.0 - q.0) == gx);
    assert(spec_abs(p.1 - q.1) == gy);
    lemma_square_of_abs(p.0 - q.0);
    lemma_square_of_abs(p.1 - q.1);
    assert(distance_sq_spec(a, b) == point_distance_sq(a.corner(ra, da), b.corner(rb, db)));
}

} // verus!
