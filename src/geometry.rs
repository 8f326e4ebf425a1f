use vstd::prelude::*;

verus! {

/// One world unit in the fixed-point scale of every vector: unit-length
/// directions have components of magnitude at most `UNIT`.
pub const UNIT: i64 = 1000;

/// Largest magnitude of a position or velocity component.
pub const MAX_COORD: i64 = 1_000_000_000_000;

/// Largest factor a direction is scaled by: room for a `u64` times a `u32`.
pub const MAX_SCALE: u128 = 0x1_0000_0000_0000_0000_0000_0000;

/// A planar vector in thousandths of a world unit.
#[derive(PartialEq, Eq, Structural, Clone, Copy, Debug)]
pub struct Vec2i {
    pub x: i64,
    pub y: i64,
}

pub open spec fn abs(c: int) -> int {
    if c >= 0 {
        c
    } else {
        -c
    }
}

/// Integer division that rounds toward zero, as used for every scaling.
pub open spec fn div_toward_zero(a: int, d: int) -> int {
    if a >= 0 {
        a / d
    } else {
        -((-a) / d)
    }
}

/// Clamps a component into `[-MAX_COORD, MAX_COORD]`.
pub open spec fn clamp_coord(c: int) -> int {
    if c > MAX_COORD {
        MAX_COORD as int
    } else if c < -MAX_COORD {
        -MAX_COORD
    } else {
        c
    }
}

/// `r` is the square root of `n` rounded down.
pub open spec fn is_floor_sqrt(r: int, n: int) -> bool {
    0 <= r && r * r <= n && n < (r + 1) * (r + 1)
}

pub open spec fn sq_len(x: int, y: int) -> int {
    x * x + y * y
}

/// The square root of `n` rounded down, for `n >= 0`.
pub open spec fn floor_sqrt_of(n: int) -> int {
    choose|r: int| is_floor_sqrt(r, n)
}

/// The unit vector along `(x, y)` in thousandths, each component rounded
/// toward zero; `(0, 0)` for the zero vector.
pub open spec fn unit_of(x: int, y: int) -> (int, int) {
    let n = sq_len(x, y);
    if n == 0 {
        (0, 0)
    } else {
        (div_toward_zero(x * UNIT, floor_sqrt_of(n)), div_toward_zero(y * UNIT, floor_sqrt_of(n)))
    }
}

/// The rounded-down square root is unique.
pub proof fn lemma_floor_sqrt_unique(a: int, b: int, n: int)
    requires
        is_floor_sqrt(a, n),
        is_floor_sqrt(b, n),
    ensures
        a == b,
{
    if a < b {
        assert((a + 1) * (a + 1) <= b * b) by (nonlinear_arith)
            requires
                0 <= a + 1 <= b,
        ;
    } else if b < a {
        assert((b + 1) * (b + 1) <= a * a) by (nonlinear_arith)
            requires
                0 <= b + 1 <= a,
        ;
    }
}

/// Every natural number has a rounded-down square root.
pub proof fn lemma_floor_sqrt_exists(n: int)
    requires
        n >= 0,
    ensures
        is_floor_sqrt(floor_sqrt_of(n), n),
    decreases n,
{
    if n == 0 {
        assert(is_floor_sqrt(0, 0));
    } else {
        lemma_floor_sqrt_exists(n - 1);
        let r = floor_sqrt_of(n - 1);
        if (r + 1) * (r + 1) <= n {
            assert(n < (r + 2) * (r + 2)) by (nonlinear_arith)
                requires
                    n - 1 < (r + 1) * (r + 1),
                    r >= 0,
            ;
            assert(is_floor_sqrt(r + 1, n));
        } else {
            assert(is_floor_sqrt(r, n));
        }
    }
}

/// The unit vector of a non-zero vector points along it: each component
/// has the sign of the vector's component or is zero, and their dot
/// product is positive.
pub proof fn lemma_unit_points_along(x: int, y: int)
    requires
        x != 0 || y != 0,
    ensures
        x * unit_of(x, y).0 >= 0,
        y * unit_of(x, y).1 >= 0,
        x * unit_of(x, y).0 + y * unit_of(x, y).1 > 0,
{
    let n = sq_len(x, y);
    assert(n > 0) by (nonlinear_arith)
        requires
            x != 0 || y != 0,
            n == x * x + y * y,
    ;
    lemma_floor_sqrt_exists(n);
    let len = floor_sqrt_of(n);
    assert(len > 0) by (nonlinear_arith)
        requires
            n < (len + 1) * (len + 1),
            n > 0,
            len >= 0,
    ;
    let ax = abs(x);
    let ay = abs(y);
    assert(ax * ax + ay * ay == n) by (nonlinear_arith)
        requires
            ax == x || ax == -x,
            ay == y || ay == -y,
            n == x * x + y * y,
    ;
    lemma_unit_nonzero(ax, ay, len);
    lemma_component_along(x, len);
    lemma_component_along(y, len);
    assert(unit_of(x, y) == (div_toward_zero(x * UNIT, len), div_toward_zero(y * UNIT, len)));
    let qx = ax * 1000 / len;
    let qy = ay * 1000 / len;
    if qx > 0 {
        assert(ax > 0) by (nonlinear_arith)
            requires
                qx == ax * 1000 / len,
                qx > 0,
                len > 0,
                ax >= 0,
        ;
        assert(ax * qx > 0) by (nonlinear_arith)
            requires
                ax > 0,
                qx > 0,
        ;
    } else {
        assert(ay > 0) by (nonlinear_arith)
            requires
                qy == ay * 1000 / len,
                qy > 0,
                len > 0,
                ay >= 0,
        ;
        assert(ay * qy > 0) by (nonlinear_arith)
            requires
                ay > 0,
                qy > 0,
        ;
    }
}

/// `c` times its unit component is `|c| * (|c| * 1000 / len)`.
proof fn lemma_component_along(c: int, len: int)
    requires
        len > 0,
    ensures
        c * div_toward_zero(c * 1000, len) == abs(c) * (abs(c) * 1000 / len),
        abs(c) * (abs(c) * 1000 / len) >= 0,
{
    let q = abs(c) * 1000 / len;
    assert(q >= 0) by (nonlinear_arith)
        requires
            len > 0,
            q == abs(c) * 1000 / len,
            abs(c) >= 0,
    ;
    assert(abs(c) * q >= 0) by (nonlinear_arith)
        requires
            q >= 0,
            abs(c) >= 0,
    ;
    if c >= 0 {
        assert(div_toward_zero(c * 1000, len) == q);
    } else {
        assert(-c * 1000 == abs(c) * 1000);
        assert(div_toward_zero(c * 1000, len) == -q);
        assert(c * (-q) == abs(c) * q) by (nonlinear_arith)
            requires
                abs(c) == -c,
        ;
    }
}

/// `v + u * num / den`: each product component rounded toward zero, each
/// sum clamped into `[-MAX_COORD, MAX_COORD]`.
pub open spec fn pushed(v: Vec2i, u: (int, int), num: int, den: int) -> Vec2i {
    Vec2i {
        x: clamp_coord(v.x + div_toward_zero(u.0 * num, den)) as i64,
        y: clamp_coord(v.y + div_toward_zero(u.1 * num, den)) as i64,
    }
}

impl Vec2i {
    /// Both components lie within `MAX_COORD`.
    pub open spec fn wf(self) -> bool {
        abs(self.x as int) <= MAX_COORD && abs(self.y as int) <= MAX_COORD
    }

    /// Both components lie within `UNIT`: the shape of a direction.
    pub open spec fn is_direction(self) -> bool {
        abs(self.x as int) <= UNIT && abs(self.y as int) <= UNIT
    }

    pub open spec fn is_zero(self) -> bool {
        self.x == 0 && self.y == 0
    }

    pub fn new(x: i64, y: i64) -> (r: Self)
        ensures
            r.x == x,
            r.y == y,
    {
        Vec2i { x, y }
    }

    pub fn zero() -> (r: Self)
        ensures
            r.is_zero(),
    {
        Vec2i { x: 0, y: 0 }
    }
}

/// Relies on `u128::isqrt`: the square root of `n`, rounded down.
#[verifier::external_body]
fn floor_sqrt(n: u128) -> (r: u128)
    ensures
        is_floor_sqrt(r as int, n as int),
{
    n.isqrt()
}

fn clamp_component(c: i128) -> (r: i64)
    ensures
        r == clamp_coord(c as int),
{
    if c > MAX_COORD as i128 {
        MAX_COORD
    } else if c < -(MAX_COORD as i128) {
        -MAX_COORD
    } else {
        c as i64
    }
}

fn div_toward_zero_exec(a: i128, d: i128) -> (r: i128)
    requires
        d > 0,
        a > i128::MIN,
    ensures
        r == div_toward_zero(a as int, d as int),
        abs(r as int) <= abs(a as int),
{
    if a >= 0 {
        proof {
            lemma_div_le(a as int, d as int);
        }
        a / d
    } else {
        proof {
            lemma_div_le(-a as int, d as int);
        }
        -((-a) / d)
    }
}

proof fn lemma_div_le(a: int, d: int)
    requires
        a >= 0,
        d > 0,
    ensures
        0 <= a / d <= a,
{
    assert(0 <= a / d <= a) by (nonlinear_arith)
        requires
            a >= 0,
            d > 0,
    ;
}

/// `a - b`, exact for well-formed vectors.
pub fn displacement(a: Vec2i, b: Vec2i) -> (r: Vec2i)
    requires
        a.wf(),
        b.wf(),
    ensures
        r.x == a.x - b.x,
        r.y == a.y - b.y,
{
    Vec2i { x: a.x - b.x, y: a.y - b.y }
}

/// Squared planar distance between two well-formed points.
pub fn distance_squared(a: Vec2i, b: Vec2i) -> (r: u128)
    requires
        a.wf(),
        b.wf(),
    ensures
        r == sq_len(a.x - b.x, a.y - b.y),
{
    let dx: i128 = a.x as i128 - b.x as i128;
    let dy: i128 = a.y as i128 - b.y as i128;
    let ax: u128 = if dx >= 0 { dx as u128 } else { (-dx) as u128 };
    let ay: u128 = if dy >= 0 { dy as u128 } else { (-dy) as u128 };
    proof {
        assert(ax * ax <= 4_000_000_000_000_000_000_000_000) by (nonlinear_arith)
            requires
                ax <= 2_000_000_000_000,
        ;
        assert(ay * ay <= 4_000_000_000_000_000_000_000_000) by (nonlinear_arith)
            requires
                ay <= 2_000_000_000_000,
        ;
        assert(ax * ax == dx * dx) by (nonlinear_arith)
            requires
                ax == dx || ax == -dx,
        ;
        assert(ay * ay == dy * dy) by (nonlinear_arith)
            requires
                ay == dy || ay == -dy,
        ;
    }
    ax * ax + ay * ay
}

/// The unit vector along `v`, in thousandths, each component rounded toward
/// zero; the zero vector for a zero-length `v`.
pub fn normalize_or_zero(v: Vec2i) -> (r: Vec2i)
    requires
        abs(v.x as int) <= 2 * MAX_COORD,
        abs(v.y as int) <= 2 * MAX_COORD,
    ensures
        r.is_direction(),
        (r.x as int, r.y as int) == unit_of(v.x as int, v.y as int),
        r.is_zero() <==> v.is_zero(),
{
    let x: i128 = v.x as i128;
    let y: i128 = v.y as i128;
    let ax: u128 = if x >= 0 { x as u128 } else { (-x) as u128 };
    let ay: u128 = if y >= 0 { y as u128 } else { (-y) as u128 };
    proof {
        assert(ax * ax <= 4_000_000_000_000_000_000_000_000) by (nonlinear_arith)
            requires
                ax <= 2_000_000_000_000,
        ;
        assert(ay * ay <= 4_000_000_000_000_000_000_000_000) by (nonlinear_arith)
            requires
                ay <= 2_000_000_000_000,
        ;
        assert(ax * ax == x * x) by (nonlinear_arith)
            requires
                ax == x || ax == -x,
        ;
        assert(ay * ay == y * y) by (nonlinear_arith)
            requires
                ay == y || ay == -y,
        ;
    }
    let n: u128 = ax * ax + ay * ay;
    let len: u128 = floor_sqrt(n);
    if len == 0 {
        proof {
            assert(n == 0) by (nonlinear_arith)
                requires
                    n < (len + 1) * (len + 1),
                    len == 0,
            ;
            assert(ax * ax == 0);
            assert(ax == 0) by (nonlinear_arith)
                requires
                    ax * ax == 0,
            ;
            assert(ay == 0) by (nonlinear_arith)
                requires
                    ay * ay == 0,
                    ax * ax + ay * ay == 0,
            ;
        }
        return Vec2i::zero();
    }
    proof {
        lemma_component_le_len(ax as int, ay as int, len as int);
        lemma_component_le_len(ay as int, ax as int, len as int);
        assert(len <= 3_000_000_000_000) by (nonlinear_arith)
            requires
                len * len <= n,
                n <= 8_000_000_000_000_000_000_000_000,
        ;
    }
    let l: i128 = len as i128;
    let rx = div_toward_zero_exec(x * 1000, l);
    let ry = div_toward_zero_exec(y * 1000, l);
    proof {
        lemma_unit_bound(x as int, ax as int, l as int);
        lemma_unit_bound(y as int, ay as int, l as int);
        if v.is_zero() {
            assert(ax == 0 && ay == 0);
            assert(n == 0) by (nonlinear_arith)
                requires
                    ax == 0,
                    ay == 0,
                    n == ax * ax + ay * ay,
            ;
            assert(false) by (nonlinear_arith)
                requires
                    len * len <= n,
                    n == 0,
                    len > 0,
            ;
        }
        let sq = sq_len(v.x as int, v.y as int);
        assert(is_floor_sqrt(l as int, sq));
        assert(sq == n);
        assert(sq > 0) by (nonlinear_arith)
            requires
                l * l <= sq,
                l > 0,
        ;
        assert(exists|r: int| is_floor_sqrt(r, sq));
        assert(is_floor_sqrt(floor_sqrt_of(sq), sq));
        lemma_floor_sqrt_unique(l as int, floor_sqrt_of(sq), sq);
        lemma_unit_nonzero(ax as int, ay as int, l as int);
    }
    Vec2i { x: rx as i64, y: ry as i64 }
}

/// A component never exceeds the rounded-down length of its vector.
proof fn lemma_component_le_len(a: int, b: int, len: int)
    requires
        a >= 0,
        b >= 0,
        is_floor_sqrt(len, a * a + b * b),
    ensures
        a <= len,
{
    if a > len {
        assert(a * a >= (len + 1) * (len + 1)) by (nonlinear_arith)
            requires
                a >= len + 1,
                len >= 0,
        ;
        assert(b * b >= 0) by (nonlinear_arith);
    }
}

/// Some component of a non-zero vector keeps a non-zero unit component.
proof fn lemma_unit_nonzero(ax: int, ay: int, len: int)
    requires
        ax >= 0,
        ay >= 0,
        len > 0,
        is_floor_sqrt(len, ax * ax + ay * ay),
    ensures
        ax * 1000 / len > 0 || ay * 1000 / len > 0,
{
    if ax * 1000 < len && ay * 1000 < len {
        assert(false) by (nonlinear_arith)
            requires
                ax * 1000 < len,
                ay * 1000 < len,
                ax >= 0,
                ay >= 0,
                len * len <= ax * ax + ay * ay,
                len > 0,
        ;
    }
    if ax * 1000 >= len {
        assert(ax * 1000 / len >= 1) by (nonlinear_arith)
            requires
                ax * 1000 >= len,
                len > 0,
        ;
    } else {
        assert(ay * 1000 / len >= 1) by (nonlinear_arith)
            requires
                ay * 1000 >= len,
                len > 0,
        ;
    }
}

proof fn lemma_unit_bound(c: int, ac: int, len: int)
    requires
        len > 0,
        ac >= 0,
        ac <= len,
        ac == c || ac == -c,
    ensures
        abs(div_toward_zero(c * 1000, len)) <= 1000,
{
    assert(ac * 1000 / len <= 1000) by (nonlinear_arith)
        requires
            ac <= len,
            len > 0,
            ac >= 0,
    ;
    assert(ac * 1000 / len >= 0) by (nonlinear_arith)
        requires
            len > 0,
            ac >= 0,
    ;
    if c >= 0 {
        assert(c * 1000 == ac * 1000);
    } else {
        assert(-(c * 1000) == ac * 1000);
    }
}

/// `v + dir * num / den`, each product component rounded toward zero and
/// each sum clamped into `[-MAX_COORD, MAX_COORD]`.
pub fn add_scaled(v: Vec2i, dir: Vec2i, num: u128, den: u64) -> (r: Vec2i)
    requires
        dir.is_direction(),
        num <= MAX_SCALE,
        den > 0,
    ensures
        r.wf(),
        r == pushed(v, (dir.x as int, dir.y as int), num as int, den as int),
{
    proof {
        lemma_product_bound(dir.x as int, num as int);
        lemma_product_bound(dir.y as int, num as int);
    }
    let px: i128 = dir.x as i128 * num as i128;
    let py: i128 = dir.y as i128 * num as i128;
    let dx = div_toward_zero_exec(px, den as i128);
    let dy = div_toward_zero_exec(py, den as i128);
    Vec2i { x: clamp_component(v.x as i128 + dx), y: clamp_component(v.y as i128 + dy) }
}

proof fn lemma_product_bound(c: int, num: int)
    requires
        abs(c) <= 1000,
        0 <= num <= MAX_SCALE,
    ensures
        abs(c * num) <= 1000 * MAX_SCALE,
{
    assert(abs(c * num) <= 1000 * MAX_SCALE) by (nonlinear_arith)
        requires
            -1000 <= c <= 1000,
            0 <= num <= MAX_SCALE,
    ;
}

} // verus!
