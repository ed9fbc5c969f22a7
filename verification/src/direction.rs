//! Unit directions on an integer lattice, and the integer square root that
//! normalising a vector needs.

use vstd::prelude::*;

verus! {

/// The length of a unit direction, in direction units.
pub const DIRECTION_UNIT: i32 = 1_000_000;

/// `r` is the integer part of the square root of `n`.
pub open spec fn is_floor_sqrt(r: int, n: int) -> bool {
    0 <= r && r * r <= n < (r + 1) * (r + 1)
}

/// The integer part of the square root of `n`.
pub open spec fn floor_sqrt(n: nat) -> nat {
    choose|r: nat| is_floor_sqrt(r as int, n as int)
}

/// Squaring is strictly monotone on the naturals.
pub proof fn lemma_square_strictly_monotone(a: int, b: int)
    requires
        0 <= a < b,
    ensures
        a * a < b * b,
{
    assert(a * a < b * b) by (nonlinear_arith)
        requires
            0 <= a < b,
    ;
}

/// Only one number is the integer square root of `n`.
pub proof fn lemma_floor_sqrt_unique(n: nat, r: nat)
    requires
        is_floor_sqrt(r as int, n as int),
    ensures
        floor_sqrt(n) == r,
{
    let s = floor_sqrt(n);
    assert(is_floor_sqrt(s as int, n as int));
    if s < r {
        lemma_square_strictly_monotone(s as int + 1, r as int + 1);
        if s + 1 < r {
            lemma_square_strictly_monotone(s as int + 1, r as int);
        }
    } else if r < s {
        if r + 1 < s {
            lemma_square_strictly_monotone(r as int + 1, s as int);
        }
    }
}

/// The integer part of the square root of `n`, by bisection.
pub fn isqrt(n: u64) -> (r: u32)
    ensures
        r == floor_sqrt(n as nat),
        is_floor_sqrt(r as int, n as int),
{
    let mut lo: u64 = 0;
    let mut hi: u64 = 0x1_0000_0000;
    while hi - lo > 1
        invariant
            lo < hi <= 0x1_0000_0000,
            lo * lo <= n,
            n < hi * hi,
        decreases hi - lo,
    {
        let mid: u64 = lo + (hi - lo) / 2;
        assert(mid * mid <= 0xffff_ffff * 0xffff_ffff) by (nonlinear_arith)
            requires
                0 <= mid <= 0xffff_ffff,
        ;
        if mid * mid <= n {
            lo = mid;
        } else {
            hi = mid;
        }
    }
    proof {
        lemma_floor_sqrt_unique(n as nat, lo as nat);
    }
    lo as u32
}

/// A lattice vector counts as a unit vector when its length is at most one
/// direction unit and falls short of it by less than two millionths.
pub open spec fn unit_length(x: int, y: int) -> bool {
    (DIRECTION_UNIT - 2) * (DIRECTION_UNIT - 2) < x * x + y * y <= DIRECTION_UNIT * DIRECTION_UNIT
}

/// The length of one component of the vector `(c, other)` scaled to unit
/// length: the integer part of `DIRECTION_UNIT * |c| / sqrt(c^2 + other^2)`,
/// taken as the integer square root of the integer part of the squared ratio.
pub open spec fn unit_magnitude(c: int, other: int) -> nat
    recommends
        c != 0 || other != 0,
{
    floor_sqrt(((c * c * (DIRECTION_UNIT * DIRECTION_UNIT)) / (c * c + other * other)) as nat)
}

/// The component `c` of the vector `(c, other)` scaled to unit length; it
/// keeps the sign of `c`.
pub open spec fn unit_component(c: int, other: int) -> int
    recommends
        c != 0 || other != 0,
{
    if c < 0 {
        -(unit_magnitude(c, other) as int)
    } else {
        unit_magnitude(c, other) as int
    }
}

/// Two squared shares of a whole, each rounded down, add up to the whole or
/// to one less.
proof fn lemma_shares(a: int, b: int, k: int)
    requires
        0 <= a,
        0 <= b,
        0 < a + b,
        0 <= k,
    ensures
        0 <= (a * k) / (a + b) <= k,
        0 <= (b * k) / (a + b) <= k,
        k - 1 <= (a * k) / (a + b) + (b * k) / (a + b) <= k,
{
    let n = a + b;
    let p = (a * k) / n;
    let q = (b * k) / n;
    assert(a * k == p * n + (a * k) % n && 0 <= (a * k) % n < n && b * k == q * n + (b * k) % n
        && 0 <= (b * k) % n < n) by (nonlinear_arith)
        requires
            n > 0,
            p == (a * k) / n,
            q == (b * k) / n,
    ;
    let ra = (a * k) % n;
    let rb = (b * k) % n;
    assert(n * k == (p + q) * n + (ra + rb)) by (nonlinear_arith)
        requires
            n == a + b,
            a * k == p * n + ra,
            b * k == q * n + rb,
    ;
    assert(k - 1 <= p + q <= k) by (nonlinear_arith)
        requires
            n > 0,
            n * k == (p + q) * n + (ra + rb),
            0 <= ra + rb < 2 * n,
    ;
    assert(0 <= a * k && 0 <= b * k) by (nonlinear_arith)
        requires
            0 <= a,
            0 <= b,
            0 <= k,
    ;
    assert(0 <= p && 0 <= q) by (nonlinear_arith)
        requires
            n > 0,
            0 <= a * k,
            0 <= b * k,
            a * k == p * n + ra,
            b * k == q * n + rb,
            ra < n,
            rb < n,
    ;
}

/// Every natural number has an integer square root, and `floor_sqrt` is it.
pub proof fn lemma_floor_sqrt(n: nat)
    ensures
        is_floor_sqrt(floor_sqrt(n) as int, n as int),
    decreases n,
{
    if n == 0 {
        assert(is_floor_sqrt(0, 0));
    } else {
        lemma_floor_sqrt((n - 1) as nat);
        let r = floor_sqrt((n - 1) as nat);
        if n < (r + 1) * (r + 1) {
            assert(is_floor_sqrt(r as int, n as int));
        } else {
            assert((r + 1) * (r + 1) < (r + 2) * (r + 2)) by (nonlinear_arith)
                requires
                    0 <= r,
            ;
            assert(is_floor_sqrt(r as int + 1, n as int));
            assert(is_floor_sqrt((r + 1) as nat as int, n as int));
        }
    }
}

/// Two naturals whose squares add up to at most `10^12` add up to less than
/// `1_414_214` themselves.
proof fn lemma_sum_below_diagonal(p: int, q: int)
    requires
        0 <= p,
        0 <= q,
        p * p + q * q <= 1_000_000_000_000,
    ensures
        p + q <= 1_414_213,
{
    let s = p + q;
    assert(s * s <= 2 * (p * p + q * q)) by (nonlinear_arith)
        requires
            s == p + q,
    ;
    if s >= 1_414_214 {
        assert(s * s >= 1_414_214 * 1_414_214) by (nonlinear_arith)
            requires
                s >= 1_414_214,
        ;
    }
}

/// Scaling a vector other than zero to unit length gives a unit vector.
pub proof fn lemma_normalized_is_unit(x: int, y: int)
    requires
        x != 0 || y != 0,
    ensures
        unit_length(unit_component(x, y), unit_component(y, x)),
        0 <= unit_magnitude(x, y) <= DIRECTION_UNIT,
        0 <= unit_magnitude(y, x) <= DIRECTION_UNIT,
{
    let a = x * x;
    let b = y * y;
    let k: int = DIRECTION_UNIT * DIRECTION_UNIT;
    assert(0 <= a && 0 <= b && 0 < a + b) by (nonlinear_arith)
        requires
            a == x * x,
            b == y * y,
            x != 0 || y != 0,
    ;
    lemma_shares(a, b, k);
    let xs = (a * k) / (a + b);
    let ys = (b * k) / (b + a);
    let p = unit_magnitude(x, y) as int;
    let q = unit_magnitude(y, x) as int;
    lemma_floor_sqrt(xs as nat);
    lemma_floor_sqrt(ys as nat);
    assert(p * p <= xs < (p + 1) * (p + 1));
    assert(q * q <= ys < (q + 1) * (q + 1));
    assert((p + 1) * (p + 1) == p * p + 2 * p + 1 && (q + 1) * (q + 1) == q * q + 2 * q + 1)
        by (nonlinear_arith);
    lemma_sum_below_diagonal(p, q);
    let cx = unit_component(x, y);
    let cy = unit_component(y, x);
    assert(cx * cx == p * p && cy * cy == q * q) by (nonlinear_arith)
        requires
            cx == p || cx == -p,
            cy == q || cy == -q,
    ;
    if p > DIRECTION_UNIT {
        lemma_square_strictly_monotone(DIRECTION_UNIT as int, p);
    }
    if q > DIRECTION_UNIT {
        lemma_square_strictly_monotone(DIRECTION_UNIT as int, q);
    }
}

/// The scaled component is the true quotient rounded down: with
/// `m = unit_magnitude(c, other)` and `len` the length of `(c, other)`,
/// `m <= DIRECTION_UNIT * |c| / len < m + 1`, stated here with both sides
/// squared and multiplied by `len^2`.
pub proof fn lemma_unit_magnitude_rounds_down(c: int, other: int)
    requires
        c != 0 || other != 0,
    ensures
        ({
            let m = unit_magnitude(c, other) as int;
            let n = c * c + other * other;
            let whole = c * c * (DIRECTION_UNIT * DIRECTION_UNIT);
            m * m * n <= whole < (m + 1) * (m + 1) * n
        }),
{
    let m = unit_magnitude(c, other) as int;
    let n = c * c + other * other;
    let whole = c * c * (DIRECTION_UNIT * DIRECTION_UNIT);
    assert(0 < n && 0 <= whole) by (nonlinear_arith)
        requires
            n == c * c + other * other,
            whole == c * c * (DIRECTION_UNIT * DIRECTION_UNIT),
            c != 0 || other != 0,
    ;
    let share = whole / n;
    assert(share * n <= whole < (share + 1) * n && 0 <= share) by (nonlinear_arith)
        requires
            0 < n,
            0 <= whole,
            share == whole / n,
    ;
    lemma_floor_sqrt(share as nat);
    assert(m * m * n <= share * n && (share + 1) * n <= (m + 1) * (m + 1) * n)
        by (nonlinear_arith)
        requires
            0 < n,
            m * m <= share,
            share + 1 <= (m + 1) * (m + 1),
    ;
}

/// The length of a unit vector is within one part in a hundred thousand of
/// one direction unit.
pub proof fn lemma_unit_within_tolerance(x: int, y: int)
    requires
        unit_length(x, y),
    ensures
        (DIRECTION_UNIT - 10) * (DIRECTION_UNIT - 10) < x * x + y * y <= DIRECTION_UNIT
            * DIRECTION_UNIT,
{
    assert((DIRECTION_UNIT - 10) * (DIRECTION_UNIT - 10) <= (DIRECTION_UNIT - 2) * (DIRECTION_UNIT
        - 2)) by (nonlinear_arith);
}

/// A vector along one axis scales to exactly one unit along that axis.
pub proof fn lemma_axis_aligned(c: int)
    requires
        c != 0,
    ensures
        c < 0 ==> unit_component(c, 0) == -DIRECTION_UNIT,
        c > 0 ==> unit_component(c, 0) == DIRECTION_UNIT,
        unit_component(0, c) == 0,
{
    let k: int = DIRECTION_UNIT * DIRECTION_UNIT;
    assert(k == 1_000_000_000_000) by (nonlinear_arith)
        requires
            k == DIRECTION_UNIT * DIRECTION_UNIT,
    ;
    assert((c * c * k) / (c * c + 0 * 0) == k && (0 * 0 * k) / (0 * 0 + c * c) == 0)
        by (nonlinear_arith)
        requires
            c != 0,
    ;
    assert(is_floor_sqrt(DIRECTION_UNIT as int, k)) by (nonlinear_arith)
        requires
            k == 1_000_000_000_000,
    ;
    lemma_floor_sqrt_unique(k as nat, DIRECTION_UNIT as nat);
    assert(is_floor_sqrt(0, 0));
    lemma_floor_sqrt_unique(0, 0);
}

/// A unit vector is not zero, and neither component is longer than a unit.
pub proof fn lemma_unit_is_bounded(x: int, y: int)
    requires
        unit_length(x, y),
    ensures
        x != 0 || y != 0,
        -DIRECTION_UNIT <= x <= DIRECTION_UNIT,
        -DIRECTION_UNIT <= y <= DIRECTION_UNIT,
{
    assert(x * x >= 0 && y * y >= 0) by (nonlinear_arith);
    if x > DIRECTION_UNIT {
        lemma_square_strictly_monotone(DIRECTION_UNIT as int, x);
    }
    if y > DIRECTION_UNIT {
        lemma_square_strictly_monotone(DIRECTION_UNIT as int, y);
    }
    if x < -DIRECTION_UNIT {
        lemma_square_strictly_monotone(DIRECTION_UNIT as int, -x);
        assert((-x) * (-x) == x * x) by (nonlinear_arith);
    }
    if y < -DIRECTION_UNIT {
        lemma_square_strictly_monotone(DIRECTION_UNIT as int, -y);
        assert((-y) * (-y) == y * y) by (nonlinear_arith);
    }
}

/// The magnitude of an `i32`, which always fits a `u64`.
fn magnitude(c: i32) -> (r: u64)
    ensures
        c < 0 ==> r == -(c as int),
        c >= 0 ==> r == c,
        r <= 0x8000_0000,
{
    if c < 0 {
        (-(c as i64)) as u64
    } else {
        c as u64
    }
}

/// One component of `(c, other)` scaled to unit length.
fn scaled_component(c: i32, other: i32) -> (r: i32)
    requires
        c != 0 || other != 0,
    ensures
        r == unit_component(c as int, other as int),
{
    let a: u64 = magnitude(c);
    let b: u64 = magnitude(other);
    assert(a * a <= 0x8000_0000 * 0x8000_0000 && b * b <= 0x8000_0000 * 0x8000_0000 && (a != 0
        || b != 0 ==> a * a + b * b > 0)) by (nonlinear_arith)
        requires
            0 <= a <= 0x8000_0000,
            0 <= b <= 0x8000_0000,
    ;
    let aa: u64 = a * a;
    let n: u64 = aa + b * b;
    assert(aa == (c as int) * (c as int) && b * b == (other as int) * (other as int))
        by (nonlinear_arith)
        requires
            aa == a * a,
            a == c || a == -(c as int),
            b == other || b == -(other as int),
    ;
    assert(aa * 1_000_000_000_000 <= 0x4000_0000_0000_0000 * 1_000_000_000_000)
        by (nonlinear_arith)
        requires
            aa <= 0x4000_0000_0000_0000,
    ;
    let share: u128 = (aa as u128 * 1_000_000_000_000u128) / (n as u128);
    proof {
        lemma_shares(aa as int, (b * b) as int, 1_000_000_000_000);
        lemma_normalized_is_unit(c as int, other as int);
    }
    let m: u32 = isqrt(share as u64);
    if c < 0 {
        -(m as i32)
    } else {
        m as i32
    }
}

/// A unit direction: a lattice vector whose length is one direction unit, to
/// within two millionths.
#[derive(Clone, Copy, Debug, PartialEq, Eq, Structural)]
pub struct Direction {
    x: i32,
    y: i32,
}

impl View for Direction {
    type V = (int, int);

    closed spec fn view(&self) -> (int, int) {
        (self.x as int, self.y as int)
    }
}

impl Direction {
    /// What every direction satisfies: its length is one unit.
    #[verifier::type_invariant]
    pub open spec fn is_unit(self) -> bool {
        unit_length(self@.0, self@.1)
    }

    /// Two directions with the same components are the same direction.
    pub proof fn lemma_view_determines(self, other: Direction)
        requires
            self@ == other@,
        ensures
            self == other,
    {
    }

    /// The direction in which `(x, y)` points. The zero vector points nowhere
    /// and is not accepted; [`Direction::from_components`] tests for it.
    pub fn normalized(x: i32, y: i32) -> (r: Direction)
        requires
            x != 0 || y != 0,
        ensures
            r@ == (unit_component(x as int, y as int), unit_component(y as int, x as int)),
            r.is_unit(),
    {
        proof {
            lemma_normalized_is_unit(x as int, y as int);
        }
        Direction { x: scaled_component(x, y), y: scaled_component(y, x) }
    }

    /// The direction in which `(x, y)` points, or `None` for the zero vector.
    pub fn from_components(x: i32, y: i32) -> (r: Option<Direction>)
        ensures
            r is None <==> x == 0 && y == 0,
            r matches Some(d) ==> d@ == (unit_component(x as int, y as int), unit_component(
                y as int,
                x as int,
            )) && d.is_unit(),
    {
        if x == 0 && y == 0 {
            None
        } else {
            Some(Direction::normalized(x, y))
        }
    }

    /// This direction mirrored on the axes named and scaled to unit length
    /// again; unchanged where no axis is named.
    pub open spec fn reflected(self, flip_x: bool, flip_y: bool) -> (int, int) {
        let x = if flip_x { -self@.0 } else { self@.0 };
        let y = if flip_y { -self@.1 } else { self@.1 };
        if flip_x || flip_y {
            (unit_component(x, y), unit_component(y, x))
        } else {
            (x, y)
        }
    }

    /// Negates the horizontal component if `flip_x`, the vertical one if
    /// `flip_y`, and scales the result to unit length again if either was
    /// negated.
    pub fn reflect(self, flip_x: bool, flip_y: bool) -> (r: Direction)
        ensures
            r@ == self.reflected(flip_x, flip_y),
            r.is_unit(),
    {
        proof {
            use_type_invariant(&self);
            lemma_unit_is_bounded(self@.0, self@.1);
        }
        if flip_x || flip_y {
            let x: i32 = if flip_x { -self.x } else { self.x };
            let y: i32 = if flip_y { -self.y } else { self.y };
            Direction::normalized(x, y)
        } else {
            self
        }
    }

    /// The horizontal component, in direction units.
    pub fn x(&self) -> (r: i32)
        ensures
            r == self@.0,
    {
        self.x
    }

    /// The vertical component, in direction units.
    pub fn y(&self) -> (r: i32)
        ensures
            r == self@.1,
    {
        self.y
    }
}

} // verus!
